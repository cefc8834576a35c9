//! The reloadable view state: the user-editable mirror of a configuration
//! plus the status line.

use vstd::prelude::*;

use crate::config::Config;
use crate::message::is_status;
use crate::message::Message;
use crate::shell::shell_split;

verus! {

/// The live, user-editable view of a configuration: the executable path,
/// the raw argument text (a shell-quoted join of the argument list, freely
/// editable and only resynchronized on an explicit reload), and the
/// one-line status text.
#[derive(Debug, Clone)]
pub struct State {
    /// Executable path as shown in the view.
    pub exe: String,
    /// Raw argument text.
    pub args: String,
    /// Status line.
    pub status: String,
}

impl Default for State {
    /// All three fields default to empty.
    fn default() -> (s: State)
        ensures
            s.exe@ =~= Seq::<char>::empty(),
            s.args@ =~= Seq::<char>::empty(),
            s.status@ =~= Seq::<char>::empty(),
    {
        State { exe: String::new(), args: String::new(), status: String::new() }
    }
}

/// An error raised when the raw argument text cannot be tokenized — its
/// quoting is malformed — so the view cannot be converted to a
/// configuration. The status message stays generic; the detail is for
/// the log.
#[derive(Debug, Clone)]
pub struct ToConfigError {
    /// What the tokenizer reported, for the log.
    pub detail: String,
}

/// The status-line text reported when argument tokenization fails.
pub open spec fn to_config_error_text() -> Seq<char> {
    "could not parse arguments"@
}

impl ToConfigError {
    /// The status message that reports this error.
    pub fn into_message(self) -> (m: Message)
        ensures
            is_status(m, to_config_error_text()),
    {
        Message::SetStatus("could not parse arguments".to_owned())
    }
}

impl State {
    /// Convert the current view to a configuration: tokenize the raw
    /// argument text by POSIX-shell word rules and pair the words with the
    /// executable path. Fails exactly where the text is malformed (an
    /// unterminated quote); the view itself is never changed.
    pub fn to_config(&self) -> (r: Result<Config, ToConfigError>)
        ensures
            r matches Ok(c) ==> shell_split(self.args@) matches Some(words)
                && c.exe@ == self.exe@
                && c.arg.deep_view() == words,
            r is Err <==> shell_split(self.args@) is None,
    {
        match crate::shell::split_words(self.args.as_str()) {
            Ok(arg) => Ok(Config { exe: self.exe.clone(), arg }),
            Err(detail) => Err(ToConfigError { detail }),
        }
    }
}

} // verus!
