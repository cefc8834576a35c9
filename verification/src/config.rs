//! The persisted configuration record: an executable path and an argument
//! list, with its rendering to and parsing from the key/value file text.

use vstd::prelude::*;
use vstd::string::StringExecFns;

use crate::codec::parse_fields;
use crate::codec::render_fields;
use crate::codec::toml_fields;
use crate::codec::toml_text;
use crate::message::is_status;
use crate::message::Message;

verus! {

/// The application configuration: an executable path and its arguments.
/// Both fields default to empty; an empty field is omitted when the
/// configuration is rendered to file text.
#[derive(Debug, Clone)]
pub struct Config {
    /// Executable path.
    pub exe: String,
    /// Application arguments.
    pub arg: Vec<String>,
}

impl Default for Config {
    /// Both fields default to empty.
    fn default() -> (c: Config)
        ensures
            c.exe@ =~= Seq::<char>::empty(),
            c.arg.deep_view() =~= Seq::<Seq<char>>::empty(),
    {
        Config { exe: String::new(), arg: Vec::new() }
    }
}

/// The file-text entry for a field: present exactly where the field is
/// non-empty.
pub open spec fn present_str(s: Seq<char>) -> Option<Seq<char>> {
    if s.len() == 0 {
        None
    } else {
        Some(s)
    }
}

/// The file-text entry for the argument list: present exactly where the
/// list is non-empty.
pub open spec fn present_args(a: Seq<Seq<char>>) -> Option<Seq<Seq<char>>> {
    if a.len() == 0 {
        None
    } else {
        Some(a)
    }
}

/// The field a parsed entry yields: the entry where its key was present,
/// empty where it was absent.
pub open spec fn field_or_empty(o: Option<Seq<char>>) -> Seq<char> {
    match o {
        Some(s) => s,
        None => Seq::empty(),
    }
}

/// The argument list a parsed entry yields: the entry where its key was
/// present, empty where it was absent.
pub open spec fn args_or_empty(o: Option<Seq<Seq<char>>>) -> Seq<Seq<char>> {
    match o {
        Some(a) => a,
        None => Seq::empty(),
    }
}

/// An error raised when a configuration cannot be saved.
#[derive(Debug, Clone)]
pub enum SaveError {
    /// The configuration could not be rendered to file text.
    Serialize {
        /// Path that was to be written.
        path: String,
        /// What the renderer reported, for the log.
        detail: String,
    },
    /// The rendered text could not be written.
    Write {
        /// Path that could not be written.
        path: String,
        /// What the write reported, for the log.
        detail: String,
    },
    /// No file was selected in the save dialog.
    NoneSelected,
}

/// The status-line text reported for a save error.
pub open spec fn save_error_text(e: SaveError) -> Seq<char> {
    match e {
        SaveError::Serialize { .. } => "could not serialize config"@,
        SaveError::Write { path, .. } => "could not write "@ + path@,
        SaveError::NoneSelected => "no path entered"@,
    }
}

impl SaveError {
    /// The status message that reports this error.
    pub fn into_message(self) -> (m: Message)
        ensures
            is_status(m, save_error_text(self)),
    {
        match self {
            SaveError::Serialize { path: _, detail: _ } => Message::SetStatus(
                "could not serialize config".to_owned(),
            ),
            SaveError::Write { path, detail: _ } => Message::SetStatus(
                "could not write ".to_owned().concat(path.as_str()),
            ),
            SaveError::NoneSelected => Message::SetStatus("no path entered".to_owned()),
        }
    }
}

/// An error raised when a configuration cannot be loaded.
#[derive(Debug, Clone)]
pub enum LoadError {
    /// The file text could not be parsed as a configuration.
    Deserialize {
        /// Path that was to be parsed.
        path: String,
        /// What the parser reported, for the log.
        detail: String,
    },
    /// The file could not be read.
    Read {
        /// Path that could not be read.
        path: String,
        /// What the read reported, for the log.
        detail: String,
    },
    /// No file was selected in the load dialog.
    NoneSelected,
}

/// The status-line text reported for a load error.
pub open spec fn load_error_text(e: LoadError) -> Seq<char> {
    match e {
        LoadError::Deserialize { path, .. } => "could not deserialize "@ + path@,
        LoadError::Read { path, .. } => "could not read "@ + path@,
        LoadError::NoneSelected => "no file selected"@,
    }
}

impl LoadError {
    /// The status message that reports this error.
    pub fn into_message(self) -> (m: Message)
        ensures
            is_status(m, load_error_text(self)),
    {
        match self {
            LoadError::Deserialize { path, detail: _ } => Message::SetStatus(
                "could not deserialize ".to_owned().concat(path.as_str()),
            ),
            LoadError::Read { path, detail: _ } => Message::SetStatus(
                "could not read ".to_owned().concat(path.as_str()),
            ),
            LoadError::NoneSelected => Message::SetStatus("no file selected".to_owned()),
        }
    }
}

impl Config {
    /// Render the configuration as file text; this fixed schema always
    /// renders. An empty field is omitted; a fully empty configuration
    /// renders as the empty text; and parsing the rendering finds exactly
    /// the entries that were rendered, so nothing is lost on the way to
    /// file and back.
    pub fn to_toml(&self) -> (r: Result<String, String>)
        ensures
            r is Ok,
            r matches Ok(s) ==> s@ == toml_text(
                "exe"@,
                present_str(self.exe@),
                "arg"@,
                present_args(self.arg.deep_view()),
            ),
            r matches Ok(s) ==> toml_fields(s@, "exe"@, "arg"@) == Some(
                (present_str(self.exe@), present_args(self.arg.deep_view())),
            ),
            self.exe@.len() == 0 && self.arg.deep_view().len() == 0 ==> (r matches Ok(s)
                && s@ =~= Seq::<char>::empty()),
    {
        proof {
            reveal_strlit("exe");
            reveal_strlit("arg");
            assert("exe"@[0] != "arg"@[0]);
        }
        let exe_entry = if self.exe.as_str().is_empty() {
            None
        } else {
            Some(self.exe.clone())
        };
        let arg_entry = if self.arg.len() == 0 {
            None
        } else {
            Some(self.arg.clone())
        };
        render_fields("exe", exe_entry, "arg", arg_entry)
    }

    /// Parse file text into a configuration. Unknown keys are ignored; a
    /// missing key leaves its field empty, so the empty text yields the
    /// default configuration. The error carries what the parser reported.
    pub fn from_toml(text: &str) -> (r: Result<Config, String>)
        ensures
            r matches Ok(c) ==> toml_fields(text@, "exe"@, "arg"@) matches Some(p)
                && c.exe@ == field_or_empty(p.0)
                && c.arg.deep_view() == args_or_empty(p.1),
            r is Err <==> toml_fields(text@, "exe"@, "arg"@) is None,
            text@ =~= Seq::<char>::empty() ==> (r matches Ok(c)
                && c.exe@ =~= Seq::<char>::empty()
                && c.arg.deep_view() =~= Seq::<Seq<char>>::empty()),
    {
        match parse_fields(text, "exe", "arg") {
            Ok((exe_entry, arg_entry)) => {
                let exe = match exe_entry {
                    Some(e) => e,
                    None => String::new(),
                };
                let arg = match arg_entry {
                    Some(a) => a,
                    None => Vec::new(),
                };
                Ok(Config { exe, arg })
            },
            Err(detail) => Err(detail),
        }
    }
}

/// Law: rendering then parsing is lossless for every configuration.
/// [`Config::to_toml`] ensures that parsing its rendering finds exactly
/// the present entries, [`Config::from_toml`] ensures that the parsed
/// fields are those entries with absent ones defaulting to empty, and
/// this lemma closes the circle: the entries a configuration's fields
/// make yield those very fields back, empty or not.
pub proof fn lemma_fields_roundtrip(exe: Seq<char>, arg: Seq<Seq<char>>)
    ensures
        field_or_empty(present_str(exe)) =~= exe,
        args_or_empty(present_args(arg)) =~= arg,
{
}

} // verus!
