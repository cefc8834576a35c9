//! The application aggregate and its reactive core: the update function,
//! which takes the current state and one message and computes the next
//! state and the effects for the host event loop, and the outcome
//! translators, which turn the plain result of each effect back into the
//! one follow-up message the loop delivers.

use vstd::prelude::*;
use vstd::string::StringExecFns;

use crate::codec::toml_fields;
use crate::config::args_or_empty;
use crate::config::field_or_empty;
use crate::config::Config;
use crate::config::LoadError;
use crate::message::emits_status;
use crate::message::is_status;
use crate::message::theme_label;
use crate::message::Effect;
use crate::message::Message;
use crate::message::Theme;
use crate::shell::shell_joined;
use crate::shell::shell_split;
use crate::state::to_config_error_text;
use crate::state::State;

verus! {

/// The top-level aggregate: theme, persisted configuration and view
/// state. Exactly one instance exists for the process lifetime, and it is
/// mutated only by [`App::update`].
#[derive(Debug, Clone)]
pub struct App {
    /// The active theme.
    pub theme: Theme,
    /// The persisted configuration.
    pub config: Config,
    /// The editable view of the configuration plus the status line.
    pub state: State,
}

/// The full transition relation of the update function: given the state
/// before, the message, the state after and the effects handed back, says
/// exactly what [`App::update`] did. One arm per message variant.
pub open spec fn update_spec(pre: App, msg: Message, post: App, effects: Seq<Effect>) -> bool {
    match msg {
        Message::SetTheme(t) => {
            &&& post.theme == t
            &&& post.config == pre.config
            &&& post.state == pre.state
            &&& emits_status(effects, "set theme to "@ + theme_label(t))
        },
        Message::SetExe(exe) => {
            &&& post.theme == pre.theme
            &&& post.config == pre.config
            &&& post.state.exe@ == exe@
            &&& post.state.args == pre.state.args
            &&& post.state.status == pre.state.status
            &&& emits_status(effects, "selected "@ + exe@)
        },
        Message::EditArgs(text) => {
            &&& post.theme == pre.theme
            &&& post.config == pre.config
            &&& post.state.exe == pre.state.exe
            &&& post.state.args@ == text@
            &&& post.state.status == pre.state.status
            &&& effects.len() == 0
        },
        Message::SetStatus(status) => {
            &&& post.theme == pre.theme
            &&& post.config == pre.config
            &&& post.state.exe == pre.state.exe
            &&& post.state.args == pre.state.args
            &&& post.state.status@ == status@
            &&& effects.len() == 0
        },
        Message::UpdateConfig(c, path) => {
            &&& post.theme == pre.theme
            &&& post.state == pre.state
            &&& post.config.exe@ == if c.exe@.len() == 0 {
                pre.config.exe@
            } else {
                c.exe@
            }
            &&& post.config.arg.deep_view() == if c.arg.deep_view().len() == 0 {
                pre.config.arg.deep_view()
            } else {
                c.arg.deep_view()
            }
            &&& effects.len() == 2
            &&& effects[0] matches Effect::Emit(m0) && is_status(m0, "loaded config "@ + path@)
            &&& effects[1] matches Effect::Emit(m1) && m1 is Reload
        },
        Message::LoadConfig(path) => {
            &&& post == pre
            &&& effects.len() == 1
            &&& effects[0] matches Effect::ReadConfig(p) && p@ == path@
        },
        Message::SaveConfig(c, path) => {
            &&& post == pre
            &&& effects.len() == 1
            &&& effects[0] matches Effect::WriteConfig(c2, p) && c2 == c && p@ == path@
        },
        Message::ExeDialog => {
            &&& post == pre
            &&& effects.len() == 1
            &&& effects[0] matches Effect::PickExe(seed) && seed@ == pre.state.exe@
        },
        Message::LoadConfigDialog => {
            &&& post == pre
            &&& effects.len() == 1
            &&& effects[0] is PickLoadPath
        },
        Message::SaveConfigDialog => {
            &&& post == pre
            &&& match shell_split(pre.state.args@) {
                Some(words) => effects.len() == 1
                    && (effects[0] matches Effect::PickSavePath(c) && c.exe@ == pre.state.exe@
                    && c.arg.deep_view() == words),
                None => emits_status(effects, to_config_error_text()),
            }
        },
        Message::Run => {
            &&& post == pre
            &&& match shell_split(pre.state.args@) {
                Some(words) => effects.len() == 1
                    && (effects[0] matches Effect::RunProcess(c) && c.exe@ == pre.state.exe@
                    && c.arg.deep_view() == words),
                None => emits_status(effects, to_config_error_text()),
            }
        },
        Message::Exit => {
            &&& post == pre
            &&& effects.len() == 1
            &&& effects[0] is Quit
        },
        Message::Reload => {
            &&& post.theme == pre.theme
            &&& post.config == pre.config
            &&& post.state.status == pre.state.status
            &&& post.state.exe@ == pre.config.exe@
            &&& post.state.args@ == shell_joined(pre.config.arg.deep_view())
            &&& shell_split(post.state.args@) == Some(pre.config.arg.deep_view())
            &&& effects.len() == 0
        },
    }
}

impl App {
    /// A fresh application: the given theme and configuration, the view
    /// empty until the first reload.
    pub fn new(theme: Theme, config: Config) -> (app: App)
        ensures
            app.theme == theme,
            app.config == config,
            app.state.exe@ =~= Seq::<char>::empty(),
            app.state.args@ =~= Seq::<char>::empty(),
            app.state.status@ =~= Seq::<char>::empty(),
    {
        App { theme, config, state: State::default() }
    }

    /// The state machine's transition function: apply one message to the
    /// state and hand back the effects for the host event loop, exactly as
    /// [`update_spec`] says. It never blocks and never fails; every error
    /// becomes a status-line message.
    pub fn update(&mut self, message: Message) -> (effects: Vec<Effect>)
        ensures
            update_spec(*old(self), message, *final(self), effects@),
    {
        match message {
            Message::SetTheme(theme) => {
                self.theme = theme;
                let status = "set theme to ".to_owned().concat(theme.name());
                vec![Effect::Emit(Message::SetStatus(status))]
            },
            Message::SetExe(exe) => {
                let status = "selected ".to_owned().concat(exe.as_str());
                self.state.exe = exe;
                vec![Effect::Emit(Message::SetStatus(status))]
            },
            Message::EditArgs(text) => {
                self.state.args = text;
                Vec::new()
            },
            Message::SetStatus(status) => {
                self.state.status = status;
                Vec::new()
            },
            Message::UpdateConfig(config, path) => {
                let Config { exe, arg } = config;
                if !exe.as_str().is_empty() {
                    self.config.exe = exe;
                }
                if arg.len() != 0 {
                    self.config.arg = arg;
                }
                let status = "loaded config ".to_owned().concat(path.as_str());
                vec![Effect::Emit(Message::SetStatus(status)), Effect::Emit(Message::Reload)]
            },
            Message::LoadConfig(path) => {
                vec![Effect::ReadConfig(path)]
            },
            Message::SaveConfig(config, path) => {
                vec![Effect::WriteConfig(config, path)]
            },
            Message::ExeDialog => {
                vec![Effect::PickExe(self.state.exe.clone())]
            },
            Message::LoadConfigDialog => {
                vec![Effect::PickLoadPath]
            },
            Message::SaveConfigDialog => {
                match self.state.to_config() {
                    Ok(config) => vec![Effect::PickSavePath(config)],
                    Err(e) => vec![Effect::Emit(e.into_message())],
                }
            },
            Message::Run => {
                match self.state.to_config() {
                    Ok(config) => vec![Effect::RunProcess(config)],
                    Err(e) => vec![Effect::Emit(e.into_message())],
                }
            },
            Message::Exit => {
                vec![Effect::Quit]
            },
            Message::Reload => {
                self.state.args = crate::shell::join_words(&self.config.arg);
                self.state.exe = self.config.exe.clone();
                Vec::new()
            },
        }
    }
}

/// Law: after a reload, the raw argument text is the shell-quoted join of
/// the configuration's arguments, and splitting it yields exactly those
/// arguments back — the view loses nothing.
pub proof fn lemma_reload_roundtrip(pre: App, post: App, effects: Seq<Effect>)
    requires
        update_spec(pre, Message::Reload, post, effects),
    ensures
        post.state.args@ == shell_joined(pre.config.arg.deep_view()),
        shell_split(post.state.args@) == Some(pre.config.arg.deep_view()),
        post.state.exe@ == pre.config.exe@,
{
}

/// Law: the merge applied for an incoming configuration never lets an
/// empty incoming field erase an existing one, and a non-empty incoming
/// field always wins.
pub proof fn lemma_merge_policy(pre: App, inc: Config, path: String, post: App, effects: Seq<
    Effect,
>)
    requires
        update_spec(pre, Message::UpdateConfig(inc, path), post, effects),
    ensures
        inc.exe@.len() == 0 ==> post.config.exe@ == pre.config.exe@,
        inc.exe@.len() != 0 ==> post.config.exe@ == inc.exe@,
        inc.arg.deep_view().len() == 0 ==> post.config.arg.deep_view() == pre.config.arg.deep_view(),
        inc.arg.deep_view().len() != 0 ==> post.config.arg.deep_view() == inc.arg.deep_view(),
{
}

/// The one follow-up message for a finished or failed process run: the
/// rendered exit status, or the spawn error's own text, on the status
/// line.
pub fn run_outcome(result: Result<String, String>) -> (m: Message)
    ensures
        match result {
            Ok(status) => is_status(m, "process finished with "@ + status@),
            Err(detail) => is_status(m, detail@),
        },
{
    match result {
        Ok(status) => Message::SetStatus("process finished with ".to_owned().concat(
            status.as_str(),
        )),
        Err(detail) => Message::SetStatus(detail),
    }
}

/// The one follow-up message for the executable-selection dialog: the
/// chosen path, a note that the path is not valid text (with the path's
/// description), or a note that nothing was selected.
pub fn exe_dialog_outcome(choice: Option<Result<String, String>>) -> (m: Message)
    ensures
        match choice {
            Some(Ok(path)) => m matches Message::SetExe(p) && p@ == path@,
            Some(Err(desc)) => is_status(m, desc@ + " is not unicode"@),
            None => is_status(m, "no executable selected"@),
        },
{
    match choice {
        Some(Ok(path)) => Message::SetExe(path),
        Some(Err(desc)) => Message::SetStatus(desc.concat(" is not unicode")),
        None => Message::SetStatus("no executable selected".to_owned()),
    }
}

/// The one follow-up message for a configuration read: the parsed
/// configuration to merge, or the read or parse failure on the status
/// line.
pub fn load_outcome(path: String, read: Result<String, String>) -> (m: Message)
    ensures
        match read {
            Ok(text) => match toml_fields(text@, "exe"@, "arg"@) {
                Some(p) => m matches Message::UpdateConfig(c, pth) && pth@ == path@
                    && c.exe@ == field_or_empty(p.0)
                    && c.arg.deep_view() == args_or_empty(p.1),
                None => is_status(m, "could not deserialize "@ + path@),
            },
            Err(_) => is_status(m, "could not read "@ + path@),
        },
{
    match read {
        Ok(text) => match Config::from_toml(text.as_str()) {
            Ok(config) => Message::UpdateConfig(config, path),
            Err(detail) => LoadError::Deserialize { path, detail }.into_message(),
        },
        Err(detail) => LoadError::Read { path, detail }.into_message(),
    }
}

/// The one follow-up message for a configuration write: a confirmation
/// with the path, or the write failure on the status line.
pub fn save_write_outcome(path: String, write_error: Option<String>) -> (m: Message)
    ensures
        match write_error {
            None => is_status(m, "saved config to "@ + path@),
            Some(_) => is_status(m, "could not write "@ + path@),
        },
{
    match write_error {
        None => Message::SetStatus("saved config to ".to_owned().concat(path.as_str())),
        Some(detail) => crate::config::SaveError::Write { path, detail }.into_message(),
    }
}

/// The one follow-up message for the load-path dialog: load the chosen
/// path, or report that nothing was selected.
pub fn load_dialog_outcome(choice: Option<String>) -> (m: Message)
    ensures
        match choice {
            Some(path) => m matches Message::LoadConfig(p) && p@ == path@,
            None => is_status(m, "no file selected"@),
        },
{
    match choice {
        Some(path) => Message::LoadConfig(path),
        None => LoadError::NoneSelected.into_message(),
    }
}

/// The one follow-up message for the save-path dialog: save the carried
/// configuration to the chosen path, or report that no path was entered.
pub fn save_dialog_outcome(config: Config, choice: Option<String>) -> (m: Message)
    ensures
        match choice {
            Some(path) => m matches Message::SaveConfig(c, p) && c == config && p@ == path@,
            None => is_status(m, "no path entered"@),
        },
{
    match choice {
        Some(path) => Message::SaveConfig(config, path),
        None => crate::config::SaveError::NoneSelected.into_message(),
    }
}

/// The first message of a session: load the startup configuration where a
/// path was given, else reset the view from the built-in configuration.
pub fn initial_message(config_path: Option<String>) -> (m: Message)
    ensures
        match config_path {
            Some(path) => m matches Message::LoadConfig(p) && p@ == path@,
            None => m is Reload,
        },
{
    match config_path {
        Some(path) => Message::LoadConfig(path),
        None => Message::Reload,
    }
}

} // verus!
