//! A small launcher library: a persisted configuration (an executable path
//! and an argument list), an editable view of it, and the reactive update
//! function that reconciles user events, dialog and file outcomes, and
//! process completions into a consistent application state.
//!
//! The update function is the heart: given the current application state and
//! one message it computes the next state and a list of effects for the host
//! event loop to perform. Everything that decides is here and verified; the
//! host supplies only the windowing, the dialogs, the file reads and writes
//! and the process spawns, and feeds their outcomes back as messages.

pub mod app;
pub mod codec;
pub mod config;
pub mod message;
pub mod shell;
pub mod state;

pub use app::App;
pub use config::Config;
pub use config::LoadError;
pub use config::SaveError;
pub use message::Effect;
pub use message::Message;
pub use message::Theme;
pub use state::State;
pub use state::ToConfigError;
