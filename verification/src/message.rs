//! The message taxonomy — the closed set of events the update function
//! accepts — and the effects it hands back to the host event loop.

use vstd::prelude::*;

use crate::config::Config;

verus! {

/// The application theme, selectable on the command line.
#[derive(Debug, Clone, Copy, PartialEq, Eq, Structural)]
pub enum Theme {
    /// Use the light theme.
    Light,
    /// Use the dark theme (the default).
    Dark,
}

impl Default for Theme {
    /// The default theme is dark.
    fn default() -> (t: Theme)
        ensures
            t == Theme::Dark,
    {
        Theme::Dark
    }
}

/// The label under which a theme is reported in the status line.
pub open spec fn theme_label(t: Theme) -> Seq<char> {
    match t {
        Theme::Light => "Light"@,
        Theme::Dark => "Dark"@,
    }
}

impl Theme {
    /// The theme's display name.
    pub fn name(&self) -> (r: &'static str)
        ensures
            r@ == theme_label(*self),
    {
        match self {
            Theme::Light => "Light",
            Theme::Dark => "Dark",
        }
    }
}

/// An event driving one state transition of the update function.
#[derive(Debug, Clone)]
pub enum Message {
    /// Set the active theme.
    SetTheme(Theme),
    /// Set the executable path shown in the view.
    SetExe(String),
    /// The argument buffer was edited; carries its full new text.
    EditArgs(String),
    /// Set the status line.
    SetStatus(String),
    /// Merge a loaded configuration (read from the given path) into the
    /// current one.
    UpdateConfig(Config, String),
    /// Load a configuration from the given path.
    LoadConfig(String),
    /// Save the given configuration to the given path.
    SaveConfig(Config, String),
    /// Open the executable-selection dialog.
    ExeDialog,
    /// Open the load-configuration dialog.
    LoadConfigDialog,
    /// Open the save-configuration dialog.
    SaveConfigDialog,
    /// Run the configured executable.
    Run,
    /// Exit the application.
    Exit,
    /// Reset the view from the current configuration.
    Reload,
}

impl From<String> for Message {
    /// A bare string is a status-line message.
    fn from(value: String) -> (m: Message) {
        Message::SetStatus(value)
    }
}

impl vstd::std_specs::convert::FromSpecImpl<String> for Message {
    open spec fn obeys_from_spec() -> bool {
        true
    }

    open spec fn from_spec(value: String) -> Message {
        Message::SetStatus(value)
    }
}

/// One unit of deferred work that the update function asks the host event
/// loop to perform. Every effect resolves to follow-up messages that are
/// fed back into the update function; the library says how in the
/// outcome-translation functions beside it.
#[derive(Debug, Clone)]
pub enum Effect {
    /// Deliver the message as-is.
    Emit(Message),
    /// Spawn the configured executable, wait for it, and deliver
    /// `crate::app::run_outcome` of the rendered exit status or of the
    /// spawn error.
    RunProcess(Config),
    /// Open a file picker seeded with the given executable name and
    /// deliver `crate::app::exe_dialog_outcome` of the choice.
    PickExe(String),
    /// Read the file at the given path and deliver
    /// `crate::app::load_outcome` of the result.
    ReadConfig(String),
    /// Render the configuration, write it to the given path, and deliver
    /// `crate::app::save_write_outcome` of the result.
    WriteConfig(Config, String),
    /// Prompt for a path to load from and deliver
    /// `crate::app::load_dialog_outcome` of the choice.
    PickLoadPath,
    /// Prompt for a path to save to and deliver
    /// `crate::app::save_dialog_outcome` of the choice.
    PickSavePath(Config),
    /// End the event loop.
    Quit,
}

/// Holds when `m` sets the status line to exactly `text`.
pub open spec fn is_status(m: Message, text: Seq<char>) -> bool {
    m matches Message::SetStatus(s) && s@ == text
}

/// Holds when the effect list is a single emitted status message with
/// exactly `text`.
pub open spec fn emits_status(effects: Seq<Effect>, text: Seq<char>) -> bool {
    &&& effects.len() == 1
    &&& effects[0] matches Effect::Emit(m) && is_status(m, text)
}

} // verus!
