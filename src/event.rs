use vstd::prelude::*;

verus! {

/// What the input thread hands to the main loop: a key, a timer value, or a
/// tick that only paces redrawing.
pub enum Event<I> {
    Input(I),
    TimerUpdate(u16),
    Tick,
}

/// The kinds of key press that the controller tells apart.
#[derive(PartialEq, Eq, Structural, Clone, Copy, Debug)]
pub enum Key {
    Char(char),
    Backspace,
    Enter,
    Tab,
    BackTab,
    Left,
    Right,
    Esc,
    Other,
}

/// What the surrounding program must do after a key was handled.
#[derive(PartialEq, Eq, Structural, Clone, Copy, Debug)]
pub enum Effect {
    Nothing,
    /// A session began: the drawing surface is to be cleared.
    ClearSurface,
}

} // verus!
