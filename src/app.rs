use vstd::prelude::*;

use crate::event::{Effect, Key};
use crate::generator::{
    corpus_of, digits_value, draw_bound, generate, is_test_text, label_count, label_ok,
    parse_length_label, ConfigurationError,
};
use crate::options::{
    focus_after, focus_before, next_index, next_tab, prev_index, prev_tab, FocusedWindow,
};
use crate::session::{after_key, apply_key, class_at, CharClass, BACKSPACE, SKIP_MARKER};

verus! {

/// Where the game stands.
#[derive(PartialEq, Eq, Structural, Clone, Copy, Debug)]
pub enum GameState {
    /// Options can be changed; the session has not begun.
    Pre,
    /// The user is typing.
    During,
    /// The session has ended.
    Post,
}

/// The whole state of the game: option lists, focus, target text,
/// transcript and cursor, and the lifecycle state.
pub struct App<'a> {
    pub should_quit: bool,
    pub state: GameState,
    pub focused_window: FocusedWindow,
    pub selected_game_tab: usize,
    pub selected_timer_tab: usize,
    /// Length labels of the shape `\d+k?`.
    pub game_options: Vec<&'a str>,
    pub timer_options: Vec<&'a str>,
    /// The corpus that test texts are drawn from.
    pub words: Vec<&'a str>,
    /// The transcript: what the user has produced so far, skip markers included.
    pub my_game_text: Vec<char>,
    /// The target text of the current test.
    pub game_text: Vec<char>,
    pub cursor_index: usize,
}

/// The word counts that the length labels of a new game name.
pub open spec fn default_length_counts() -> Seq<nat> {
    seq![100, 1000, 5000, 10000]
}

impl<'a> App<'a> {
    pub open spec fn wf(&self) -> bool {
        &&& self.words.len() > 0
        &&& self.game_options.len() > 0
        &&& self.timer_options.len() > 0
        &&& self.selected_game_tab < self.game_options.len()
        &&& self.selected_timer_tab < self.timer_options.len()
        &&& forall|i: int|
            0 <= i < self.game_options.len() ==> label_ok(#[trigger] self.game_options@[i]@)
        &&& self.my_game_text.len() == self.cursor_index
        &&& self.cursor_index <= self.game_text.len()
    }

    /// The highest corpus index that the selected length label lets a draw reach.
    pub open spec fn length_bound(&self) -> int {
        draw_bound(
            label_count(self.game_options@[self.selected_game_tab as int]@) as int,
            self.words.len() as int,
        )
    }

    /// `t` is a test text for the selected length.
    pub open spec fn fresh_text(&self, t: Seq<char>) -> bool {
        is_test_text(corpus_of(self.words@), self.length_bound(), t)
    }

    pub open spec fn focus_forward_post(a: Self, b: Self) -> bool {
        b == (App { focused_window: focus_after(a.focused_window), ..a })
    }

    pub open spec fn focus_backward_post(a: Self, b: Self) -> bool {
        b == (App { focused_window: focus_before(a.focused_window), ..a })
    }

    /// `b` is `a` with the length index `i` selected and a new text for it.
    /// The transcript and cursor stay as they were while the cursor still
    /// fits in the new text; when it does not, both start over from empty.
    pub open spec fn length_selected(a: Self, b: Self, i: int) -> bool {
        &&& b.fresh_text(b.game_text@)
        &&& if a.cursor_index <= b.game_text.len() {
            b == (App { selected_game_tab: i as usize, game_text: b.game_text, ..a })
        } else {
            &&& b == (App {
                selected_game_tab: i as usize,
                game_text: b.game_text,
                my_game_text: b.my_game_text,
                cursor_index: 0,
                ..a
            })
            &&& b.my_game_text@.len() == 0
        }
    }

    pub open spec fn tab_forward_post(a: Self, b: Self) -> bool {
        match a.focused_window {
            FocusedWindow::GameOptions => Self::length_selected(
                a,
                b,
                next_tab(a.selected_game_tab as int, a.game_options.len() as int),
            ),
            FocusedWindow::TimerOptions => b == (App {
                selected_timer_tab: next_tab(
                    a.selected_timer_tab as int,
                    a.timer_options.len() as int,
                ) as usize,
                ..a
            }),
            FocusedWindow::Game => b == a,
        }
    }

    pub open spec fn tab_backward_post(a: Self, b: Self) -> bool {
        match a.focused_window {
            FocusedWindow::GameOptions => Self::length_selected(
                a,
                b,
                prev_tab(a.selected_game_tab as int, a.game_options.len() as int),
            ),
            FocusedWindow::TimerOptions => b == (App {
                selected_timer_tab: prev_tab(
                    a.selected_timer_tab as int,
                    a.timer_options.len() as int,
                ) as usize,
                ..a
            }),
            FocusedWindow::Game => b == a,
        }
    }

    pub open spec fn start_post(a: Self, b: Self) -> bool {
        if a.state == GameState::Pre && a.focused_window == FocusedWindow::Game {
            &&& b == (App {
                state: GameState::During,
                my_game_text: b.my_game_text,
                cursor_index: 0,
                ..a
            })
            &&& b.my_game_text@.len() == 0
        } else {
            b == a
        }
    }

    pub open spec fn end_post(a: Self, b: Self) -> bool {
        if a.state == GameState::During {
            &&& b == (App {
                state: GameState::Pre,
                my_game_text: b.my_game_text,
                game_text: b.game_text,
                cursor_index: 0,
                ..a
            })
            &&& b.my_game_text@.len() == 0
            &&& b.fresh_text(b.game_text@)
        } else {
            b == a
        }
    }

    pub open spec fn char_post(a: Self, b: Self, c: char) -> bool {
        &&& b == (App { my_game_text: b.my_game_text, cursor_index: b.cursor_index, ..a })
        &&& b.my_game_text@ == after_key(a.game_text@, a.my_game_text@, c)
        &&& b.cursor_index == b.my_game_text.len()
    }

    pub open spec fn quit_post(a: Self, b: Self) -> bool {
        b == (App { should_quit: true, ..a })
    }

    /// The transition for `key` from `a` to `b`, with effect `e`. Before a
    /// session: quit, focus, option and start keys; during it: typing, end
    /// and quit keys; after it: quit keys. Every other key changes nothing.
    pub open spec fn key_post(a: Self, b: Self, key: Key, e: Effect) -> bool {
        match a.state {
            GameState::Pre => {
                &&& e == (if key == Key::Enter && a.focused_window == FocusedWindow::Game {
                    Effect::ClearSurface
                } else {
                    Effect::Nothing
                })
                &&& if key == Key::Esc || key == Key::Char('q') {
                    Self::quit_post(a, b)
                } else if key == Key::Tab {
                    Self::focus_forward_post(a, b)
                } else if key == Key::BackTab {
                    Self::focus_backward_post(a, b)
                } else if key == Key::Left {
                    Self::tab_backward_post(a, b)
                } else if key == Key::Right {
                    Self::tab_forward_post(a, b)
                } else if key == Key::Enter {
                    Self::start_post(a, b)
                } else {
                    b == a
                }
            },
            GameState::During => {
                &&& e == Effect::Nothing
                &&& if key == Key::Esc {
                    Self::quit_post(a, b)
                } else if key is Char {
                    Self::char_post(a, b, key->0)
                } else if key == Key::Backspace {
                    Self::char_post(a, b, BACKSPACE)
                } else if key == Key::Enter {
                    Self::end_post(a, b)
                } else {
                    b == a
                }
            },
            GameState::Post => {
                &&& e == Effect::Nothing
                &&& if key == Key::Esc || key == Key::Char('q') {
                    Self::quit_post(a, b)
                } else {
                    b == a
                }
            },
        }
    }

    /// A new game over corpus `words`: lengths "100", "1k", "5k", "10k",
    /// durations "30", "60", "120", focus on the typing area, and a test text
    /// for the first length. An empty corpus is refused.
    pub fn new(words: Vec<&'a str>) -> (r: Result<App<'a>, ConfigurationError>)
        ensures
            r is Err <==> words.len() == 0,
            r matches Ok(a) ==> {
                &&& a.wf()
                &&& a.words@ == words@
                &&& !a.should_quit
                &&& a.state == GameState::Pre
                &&& a.focused_window == FocusedWindow::Game
                &&& a.selected_game_tab == 0
                &&& a.selected_timer_tab == 0
                &&& a.game_options.len() == 4
                &&& forall|i: int|
                    0 <= i < 4 ==> label_count(#[trigger] a.game_options@[i]@)
                        == default_length_counts()[i]
                &&& a.game_options@[0]@ == "100"@
                &&& a.game_options@[1]@ == "1k"@
                &&& a.game_options@[2]@ == "5k"@
                &&& a.game_options@[3]@ == "10k"@
                &&& a.timer_options.len() == 3
                &&& a.timer_options@[0]@ == "30"@
                &&& a.timer_options@[1]@ == "60"@
                &&& a.timer_options@[2]@ == "120"@
                &&& a.my_game_text@.len() == 0
                &&& a.cursor_index == 0
                &&& a.fresh_text(a.game_text@)
            },
    {
        if words.len() == 0 {
            return Err(ConfigurationError::EmptyCorpus);
        }
        let mut a = App {
            should_quit: false,
            state: GameState::Pre,
            focused_window: FocusedWindow::Game,
            selected_game_tab: 0,
            selected_timer_tab: 0,
            game_options: vec!["100", "1k", "5k", "10k"],
            timer_options: vec!["30", "60", "120"],
            my_game_text: Vec::new(),
            words,
            game_text: Vec::new(),
            cursor_index: 0,
        };
        proof {
            reveal_strlit("100");
            reveal_strlit("1k");
            reveal_strlit("5k");
            reveal_strlit("10k");
            reveal_with_fuel(digits_value, 4);
            assert(label_count("100"@) == 100);
            assert(label_count("1k"@) == 1000);
            assert(label_count("5k"@) == 5000);
            assert(label_count("10k"@) == 10000);
            assert(label_ok("100"@));
            assert(label_ok("1k"@));
            assert(label_ok("5k"@));
            assert(label_ok("10k"@));
        }
        a.game_text = a.gen_test();
        Ok(a)
    }

    pub fn cycle_focus_forward(&mut self)
        ensures
            Self::focus_forward_post(*old(self), *final(self)),
    {
        match self.focused_window {
            FocusedWindow::Game => self.focused_window = FocusedWindow::GameOptions,
            FocusedWindow::GameOptions => self.focused_window = FocusedWindow::TimerOptions,
            FocusedWindow::TimerOptions => self.focused_window = FocusedWindow::Game,
        }
    }

    pub fn cycle_focus_backward(&mut self)
        ensures
            Self::focus_backward_post(*old(self), *final(self)),
    {
        match self.focused_window {
            FocusedWindow::Game => self.focused_window = FocusedWindow::TimerOptions,
            FocusedWindow::GameOptions => self.focused_window = FocusedWindow::Game,
            FocusedWindow::TimerOptions => self.focused_window = FocusedWindow::GameOptions,
        }
    }

    /// Selects length index `i` and draws a text for it; the transcript is
    /// kept unless the cursor no longer fits in the new text.
    fn select_length(&mut self, i: usize)
        requires
            old(self).wf(),
            i < old(self).game_options.len(),
        ensures
            final(self).wf(),
            Self::length_selected(*old(self), *final(self), i as int),
    {
        self.selected_game_tab = i;
        let t = self.gen_test();
        if self.cursor_index > t.len() {
            self.my_game_text = Vec::new();
            self.cursor_index = 0;
        }
        self.game_text = t;
    }

    /// Moves the selection of the focused option list one step forward,
    /// wrapping to the first; a new length draws a new text.
    pub fn cycle_tab_forward(&mut self)
        requires
            old(self).wf(),
        ensures
            final(self).wf(),
            Self::tab_forward_post(*old(self), *final(self)),
    {
        match self.focused_window {
            FocusedWindow::GameOptions => {
                let i = next_index(self.selected_game_tab, self.game_options.len());
                self.select_length(i);
            },
            FocusedWindow::TimerOptions => {
                self.selected_timer_tab = next_index(
                    self.selected_timer_tab,
                    self.timer_options.len(),
                );
            },
            _ => {},
        }
    }

    /// Moves the selection of the focused option list one step back,
    /// wrapping to the last; a new length draws a new text.
    pub fn cycle_tab_backward(&mut self)
        requires
            old(self).wf(),
        ensures
            final(self).wf(),
            Self::tab_backward_post(*old(self), *final(self)),
    {
        match self.focused_window {
            FocusedWindow::GameOptions => {
                let i = prev_index(self.selected_game_tab, self.game_options.len());
                self.select_length(i);
            },
            FocusedWindow::TimerOptions => {
                self.selected_timer_tab = prev_index(
                    self.selected_timer_tab,
                    self.timer_options.len(),
                );
            },
            _ => {},
        }
    }

    /// Begins a session: only before one, and only with the typing area in
    /// focus; otherwise nothing changes.
    pub fn start_game(&mut self)
        requires
            old(self).wf(),
        ensures
            final(self).wf(),
            Self::start_post(*old(self), *final(self)),
    {
        if self.state == GameState::Pre && self.focused_window == FocusedWindow::Game {
            self.my_game_text = Vec::new();
            self.cursor_index = 0;
            self.state = GameState::During;
        }
    }

    /// Ends a running session: clears the transcript, draws a new text and
    /// returns to the state before a session. Outside a session nothing changes.
    pub fn end_game(&mut self)
        requires
            old(self).wf(),
        ensures
            final(self).wf(),
            Self::end_post(*old(self), *final(self)),
    {
        if self.state == GameState::During {
            self.my_game_text = Vec::new();
            self.state = GameState::Pre;
            self.cursor_index = 0;
            self.game_text = self.gen_test();
        }
    }

    /// Asks the main loop to stop.
    pub fn quit(&mut self)
        ensures
            Self::quit_post(*old(self), *final(self)),
    {
        self.should_quit = true;
    }

    /// Applies one key press to the transcript: `'\x08'` is a backspace,
    /// `' '` a space, anything else a typed character.
    pub fn on_char(&mut self, c: char)
        requires
            old(self).wf(),
        ensures
            final(self).wf(),
            Self::char_post(*old(self), *final(self), c),
    {
        apply_key(&self.game_text, &mut self.my_game_text, c);
        self.cursor_index = self.my_game_text.len();
    }

    /// A test text for the selected length.
    pub fn gen_test(&self) -> (t: Vec<char>)
        requires
            self.wf(),
        ensures
            self.fresh_text(t@),
    {
        let label = self.game_options[self.selected_game_tab];
        // `wf` makes the label parse and the corpus non-empty, so neither
        // fallback below is ever taken
        let r = match parse_length_label(label) {
            Some(v) => v,
            None => 0,
        };
        match generate(&self.words, r) {
            Ok(t) => t,
            Err(_) => Vec::new(),
        }
    }

    /// The class of transcript position `i`.
    pub fn classify(&self, i: usize) -> (r: CharClass)
        requires
            self.wf(),
            i < self.my_game_text.len(),
        ensures
            r == class_at(self.game_text@, self.my_game_text@, i as int),
    {
        let c = self.my_game_text[i];
        if c == SKIP_MARKER {
            CharClass::Skipped
        } else if c == self.game_text[i] {
            CharClass::Correct
        } else {
            CharClass::Incorrect
        }
    }

    /// The whole target text has been covered.
    pub fn is_complete(&self) -> (r: bool)
        requires
            self.wf(),
        ensures
            r == (self.cursor_index == self.game_text.len()),
    {
        self.cursor_index == self.game_text.len()
    }

    /// Routes a key press by the state of the game; see `key_post`.
    pub fn on_key(&mut self, key: Key) -> (e: Effect)
        requires
            old(self).wf(),
        ensures
            final(self).wf(),
            Self::key_post(*old(self), *final(self), key, e),
    {
        match self.state {
            GameState::Pre => match key {
                Key::Esc => self.quit(),
                Key::Char('q') => self.quit(),
                Key::Tab => self.cycle_focus_forward(),
                Key::BackTab => self.cycle_focus_backward(),
                Key::Left => self.cycle_tab_backward(),
                Key::Right => self.cycle_tab_forward(),
                Key::Enter => {
                    if self.focused_window == FocusedWindow::Game {
                        self.start_game();
                        return Effect::ClearSurface;
                    }
                },
                _ => {},
            },
            GameState::During => match key {
                Key::Esc => self.quit(),
                Key::Char(c) => self.on_char(c),
                Key::Backspace => self.on_char(BACKSPACE),
                Key::Enter => self.end_game(),
                _ => {},
            },
            GameState::Post => match key {
                Key::Esc => self.quit(),
                Key::Char('q') => self.quit(),
                _ => {},
            },
        }
        Effect::Nothing
    }
}

} // verus!
