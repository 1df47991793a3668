use vstd::prelude::*;

verus! {

/// The panel that receives directional and selection input.
#[derive(PartialEq, Eq, Structural, Clone, Copy, Debug)]
pub enum FocusedWindow {
    /// The list of text lengths.
    GameOptions,
    /// The list of durations.
    TimerOptions,
    /// The typing area.
    Game,
}

/// The next panel of the ring lengths, durations, typing area.
pub open spec fn focus_after(f: FocusedWindow) -> FocusedWindow {
    match f {
        FocusedWindow::GameOptions => FocusedWindow::TimerOptions,
        FocusedWindow::TimerOptions => FocusedWindow::Game,
        FocusedWindow::Game => FocusedWindow::GameOptions,
    }
}

/// The previous panel of the ring.
pub open spec fn focus_before(f: FocusedWindow) -> FocusedWindow {
    match f {
        FocusedWindow::GameOptions => FocusedWindow::Game,
        FocusedWindow::TimerOptions => FocusedWindow::GameOptions,
        FocusedWindow::Game => FocusedWindow::TimerOptions,
    }
}

/// The index after `i` in a list of `n` options, wrapping to the first.
pub open spec fn next_tab(i: int, n: int) -> int {
    if i + 1 < n {
        i + 1
    } else {
        0
    }
}

/// The index before `i` in a list of `n` options, wrapping to the last.
pub open spec fn prev_tab(i: int, n: int) -> int {
    if i > 0 {
        i - 1
    } else {
        n - 1
    }
}

/// The index reached from `i` after `k` forward steps in a list of `n` options.
pub open spec fn tab_after_steps(i: int, n: int, k: nat) -> int
    decreases k,
{
    if k == 0 {
        i
    } else {
        next_tab(tab_after_steps(i, n, (k - 1) as nat), n)
    }
}

/// `next_tab` on a `usize` index.
pub fn next_index(i: usize, n: usize) -> (r: usize)
    requires
        i < n,
    ensures
        r == next_tab(i as int, n as int),
        r < n,
{
    if i + 1 < n {
        i + 1
    } else {
        0
    }
}

/// `prev_tab` on a `usize` index.
pub fn prev_index(i: usize, n: usize) -> (r: usize)
    requires
        i < n,
    ensures
        r == prev_tab(i as int, n as int),
        r < n,
{
    if i > 0 {
        i - 1
    } else {
        n - 1
    }
}

} // verus!
