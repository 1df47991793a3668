use vstd::prelude::*;

verus! {

/// Where a row of tabs sits in its area.
#[derive(PartialEq, Eq, Structural, Clone, Copy, Debug)]
pub enum TabAlignment {
    Left,
    Center,
    Right,
}

/// `a - b`, or 0 when `b` is larger.
pub open spec fn sat_sub(a: int, b: int) -> int {
    if a > b {
        a - b
    } else {
        0
    }
}

/// The column, counted from the area's left edge, at which a line of
/// `line_width` columns starts in an area `text_area_width` wide.
pub fn get_line_offset(line_width: u16, text_area_width: u16, alignment: TabAlignment) -> (r: u16)
    ensures
        r == match alignment {
            TabAlignment::Center => sat_sub((text_area_width / 2) as int, (line_width / 2) as int),
            TabAlignment::Right => sat_sub(text_area_width as int, line_width as int),
            TabAlignment::Left => 0,
        },
{
    match alignment {
        TabAlignment::Center => (text_area_width / 2).saturating_sub(line_width / 2),
        TabAlignment::Right => text_area_width.saturating_sub(line_width),
        TabAlignment::Left => 0,
    }
}

} // verus!
