use rype::layout::get_line_offset;
use rype::{App, ConfigurationError, Effect, FocusedWindow, GameState, Key, TabAlignment};

fn text(app: &App) -> String {
    app.game_text.iter().collect()
}

#[test]
fn new_refuses_empty_corpus() {
    assert!(matches!(App::new(Vec::new()), Err(ConfigurationError::EmptyCorpus)));
}

#[test]
fn new_game_defaults() {
    let app = App::new(vec!["a", "b", "c"]).unwrap();
    assert!(!app.should_quit);
    assert_eq!(app.state, GameState::Pre);
    assert_eq!(app.focused_window, FocusedWindow::Game);
    assert_eq!(app.selected_game_tab, 0);
    assert_eq!(app.selected_timer_tab, 0);
    assert_eq!(app.game_options, vec!["100", "1k", "5k", "10k"]);
    assert_eq!(app.timer_options, vec!["30", "60", "120"]);
    assert_eq!(app.cursor_index, 0);
    assert!(app.my_game_text.is_empty());
    assert_eq!(text(&app).split(' ').count(), 500);
}

#[test]
fn focus_cycles_through_the_ring() {
    let mut app = App::new(vec!["a"]).unwrap();
    app.cycle_focus_forward();
    assert_eq!(app.focused_window, FocusedWindow::GameOptions);
    app.cycle_focus_forward();
    assert_eq!(app.focused_window, FocusedWindow::TimerOptions);
    app.cycle_focus_forward();
    assert_eq!(app.focused_window, FocusedWindow::Game);
    app.cycle_focus_backward();
    assert_eq!(app.focused_window, FocusedWindow::TimerOptions);
    app.cycle_focus_backward();
    assert_eq!(app.focused_window, FocusedWindow::GameOptions);
    app.cycle_focus_backward();
    assert_eq!(app.focused_window, FocusedWindow::Game);
}

#[test]
fn length_options_wrap_both_ways() {
    let mut app = App::new(vec!["a", "b"]).unwrap();
    app.focused_window = FocusedWindow::GameOptions;
    for _ in 0..4 {
        app.cycle_tab_forward();
        assert_eq!(text(&app).split(' ').count(), 500);
    }
    assert_eq!(app.selected_game_tab, 0);
    app.cycle_tab_backward();
    assert_eq!(app.selected_game_tab, 3);
    assert_eq!(app.selected_timer_tab, 0);
}

#[test]
fn timer_options_wrap_and_keep_text() {
    let mut app = App::new(vec!["a", "b"]).unwrap();
    let before = app.game_text.clone();
    app.focused_window = FocusedWindow::TimerOptions;
    app.cycle_tab_backward();
    assert_eq!(app.selected_timer_tab, 2);
    app.cycle_tab_forward();
    assert_eq!(app.selected_timer_tab, 0);
    assert_eq!(app.game_text, before);
    assert_eq!(app.selected_game_tab, 0);
}

#[test]
fn option_cycling_is_noop_on_typing_area() {
    let mut app = App::new(vec!["a", "b"]).unwrap();
    let before = app.game_text.clone();
    app.cycle_tab_forward();
    app.cycle_tab_backward();
    assert_eq!(app.selected_game_tab, 0);
    assert_eq!(app.selected_timer_tab, 0);
    assert_eq!(app.game_text, before);
}

#[test]
fn start_needs_typing_focus() {
    let mut app = App::new(vec!["a", "b"]).unwrap();
    app.focused_window = FocusedWindow::GameOptions;
    app.start_game();
    assert_eq!(app.state, GameState::Pre);
    app.focused_window = FocusedWindow::Game;
    app.start_game();
    assert_eq!(app.state, GameState::During);
}

#[test]
fn end_outside_session_is_noop() {
    let mut app = App::new(vec!["a", "b"]).unwrap();
    let before = app.game_text.clone();
    app.end_game();
    assert_eq!(app.state, GameState::Pre);
    assert_eq!(app.game_text, before);
}

#[test]
fn end_resets_transcript() {
    let mut app = App::new(vec!["ab", "cd"]).unwrap();
    app.start_game();
    app.on_char('a');
    app.on_char('b');
    assert_eq!(app.cursor_index, 2);
    app.end_game();
    assert_eq!(app.state, GameState::Pre);
    assert_eq!(app.cursor_index, 0);
    assert!(app.my_game_text.is_empty());
    assert_eq!(text(&app).split(' ').count(), 500);
}

#[test]
fn keys_route_by_state() {
    let mut app = App::new(vec!["q", "w"]).unwrap();
    assert_eq!(app.on_key(Key::Tab), Effect::Nothing);
    assert_eq!(app.focused_window, FocusedWindow::GameOptions);
    assert_eq!(app.on_key(Key::Right), Effect::Nothing);
    assert_eq!(app.selected_game_tab, 1);
    assert_eq!(app.on_key(Key::Left), Effect::Nothing);
    assert_eq!(app.selected_game_tab, 0);
    assert_eq!(app.on_key(Key::Enter), Effect::Nothing);
    assert_eq!(app.state, GameState::Pre);
    app.on_key(Key::BackTab);
    assert_eq!(app.focused_window, FocusedWindow::Game);
    assert_eq!(app.on_key(Key::Enter), Effect::ClearSurface);
    assert_eq!(app.state, GameState::During);
    app.on_key(Key::Char('q'));
    assert!(!app.should_quit);
    assert_eq!(app.cursor_index, 1);
    app.on_key(Key::Backspace);
    assert_eq!(app.cursor_index, 0);
    app.on_key(Key::Tab);
    assert_eq!(app.focused_window, FocusedWindow::Game);
    app.on_key(Key::Enter);
    assert_eq!(app.state, GameState::Pre);
    app.on_key(Key::Char('q'));
    assert!(app.should_quit);
}

#[test]
fn escape_quits_during_session() {
    let mut app = App::new(vec!["a"]).unwrap();
    app.on_key(Key::Enter);
    assert_eq!(app.state, GameState::During);
    app.on_key(Key::Esc);
    assert!(app.should_quit);
}

#[test]
fn finished_state_accepts_only_quit() {
    let mut app = App::new(vec!["a"]).unwrap();
    app.state = GameState::Post;
    app.on_key(Key::Enter);
    app.on_key(Key::Char('x'));
    assert_eq!(app.state, GameState::Post);
    assert!(!app.should_quit);
    app.on_key(Key::Char('q'));
    assert!(app.should_quit);
}

#[test]
fn quit_sets_flag() {
    let mut app = App::new(vec!["a"]).unwrap();
    app.quit();
    assert!(app.should_quit);
    assert_eq!(app.state, GameState::Pre);
}

#[test]
fn completion_needs_whole_text() {
    let mut app = App::new(vec!["ab"]).unwrap();
    app.game_text = "ab".chars().collect();
    assert!(!app.is_complete());
    app.on_char('a');
    app.on_char('x');
    assert!(app.is_complete());
}

#[test]
fn line_offsets_by_alignment() {
    assert_eq!(get_line_offset(10, 30, TabAlignment::Left), 0);
    assert_eq!(get_line_offset(10, 30, TabAlignment::Right), 20);
    assert_eq!(get_line_offset(10, 30, TabAlignment::Center), 10);
    assert_eq!(get_line_offset(40, 30, TabAlignment::Right), 0);
    assert_eq!(get_line_offset(40, 30, TabAlignment::Center), 0);
}

#[test]
fn length_change_keeps_transcript_that_fits() {
    let mut app = App::new(vec!["ab", "cd"]).unwrap();
    app.on_char('a');
    app.on_char('z');
    let typed = app.my_game_text.clone();
    app.focused_window = FocusedWindow::GameOptions;
    app.cycle_tab_forward();
    assert_eq!(app.selected_game_tab, 1);
    assert_eq!(app.my_game_text, typed);
    assert_eq!(app.cursor_index, 2);
    app.cycle_tab_backward();
    assert_eq!(app.selected_game_tab, 0);
    assert_eq!(app.my_game_text, typed);
    assert_eq!(app.cursor_index, 2);
    assert_eq!(app.state, GameState::Pre);
    assert_eq!(app.focused_window, FocusedWindow::GameOptions);
}
