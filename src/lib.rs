//! The session engine of a terminal typing test: test texts drawn from a
//! word corpus, key presses applied to a transcript with word skipping, the
//! option lists and focus ring, and the game's lifecycle.

pub mod app;
pub mod event;
pub mod generator;
pub mod laws;
pub mod layout;
pub mod options;
pub mod session;

pub use app::{App, GameState};
pub use event::{Effect, Event, Key};
pub use generator::ConfigurationError;
pub use layout::TabAlignment;
pub use options::FocusedWindow;
pub use session::CharClass;
