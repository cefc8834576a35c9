//! The update function: one test per message variant, plus the documented
//! scenarios around merging, reloading and argument tokenization.

use command_runner::app::exe_dialog_outcome;
use command_runner::app::initial_message;
use command_runner::app::load_dialog_outcome;
use command_runner::app::load_outcome;
use command_runner::app::run_outcome;
use command_runner::app::save_dialog_outcome;
use command_runner::app::save_write_outcome;
use command_runner::App;
use command_runner::Config;
use command_runner::Effect;
use command_runner::Message;
use command_runner::State;
use command_runner::Theme;

fn fresh(config: Config) -> App {
    App::new(Theme::Dark, config)
}

fn emitted_status(effects: &[Effect]) -> &str {
    match effects {
        [Effect::Emit(Message::SetStatus(s))] => s,
        _ => panic!("expected a single emitted status"),
    }
}

#[test]
fn set_theme_updates_and_reports() {
    let mut app = fresh(Config::default());
    let effects = app.update(Message::SetTheme(Theme::Light));
    assert!(matches!(app.theme, Theme::Light));
    assert_eq!(emitted_status(&effects), "set theme to Light");
}

#[test]
fn set_exe_updates_view_and_reports() {
    let mut app = fresh(Config::default());
    let effects = app.update(Message::SetExe("wine".to_string()));
    assert_eq!(app.state.exe, "wine");
    assert_eq!(emitted_status(&effects), "selected wine");
}

#[test]
fn edit_args_replaces_buffer_silently() {
    let mut app = fresh(Config::default());
    let effects = app.update(Message::EditArgs("-a -b".to_string()));
    assert_eq!(app.state.args, "-a -b");
    assert!(effects.is_empty());
}

#[test]
fn set_status_writes_status_line() {
    let mut app = fresh(Config::default());
    let effects = app.update(Message::SetStatus("hello".to_string()));
    assert_eq!(app.state.status, "hello");
    assert!(effects.is_empty());
}

#[test]
fn merge_keeps_existing_fields_where_incoming_is_empty() {
    let mut app = fresh(Config {
        exe: "a".to_string(),
        arg: vec!["x".to_string()],
    });
    let incoming = Config {
        exe: String::new(),
        arg: vec!["y".to_string()],
    };
    let effects = app.update(Message::UpdateConfig(incoming, "c.toml".to_string()));
    assert_eq!(app.config.exe, "a");
    assert_eq!(app.config.arg, vec!["y".to_string()]);
    match &effects[..] {
        [Effect::Emit(Message::SetStatus(s)), Effect::Emit(Message::Reload)] => {
            assert_eq!(s, "loaded config c.toml");
        }
        _ => panic!("expected a status and a reload"),
    }
}

#[test]
fn merge_takes_incoming_non_empty_fields() {
    let mut app = fresh(Config {
        exe: "a".to_string(),
        arg: vec!["x".to_string()],
    });
    let incoming = Config {
        exe: "b".to_string(),
        arg: Vec::new(),
    };
    app.update(Message::UpdateConfig(incoming, "c.toml".to_string()));
    assert_eq!(app.config.exe, "b");
    assert_eq!(app.config.arg, vec!["x".to_string()]);
}

#[test]
fn reload_renders_arguments_with_quoting_and_splits_back() {
    let mut app = fresh(Config {
        exe: "run.exe".to_string(),
        arg: vec!["--flag".to_string(), "value with spaces".to_string()],
    });
    let effects = app.update(Message::Reload);
    assert!(effects.is_empty());
    assert_eq!(app.state.exe, "run.exe");
    assert_eq!(
        app.state.args,
        shell_words::join(["--flag", "value with spaces"])
    );
    assert_eq!(app.state.args, "--flag 'value with spaces'");
    let c = app.state.to_config().expect("the joined line splits back");
    assert_eq!(c.exe, "run.exe");
    assert_eq!(
        c.arg,
        vec!["--flag".to_string(), "value with spaces".to_string()]
    );
}

#[test]
fn to_config_splits_quoted_words() {
    let s = State {
        exe: "x".to_string(),
        args: "a 'b c'".to_string(),
        status: String::new(),
    };
    let c = s.to_config().expect("well-quoted text splits");
    assert_eq!(c.exe, "x");
    assert_eq!(c.arg, vec!["a".to_string(), "b c".to_string()]);
}

#[test]
fn to_config_rejects_unterminated_quote() {
    let s = State {
        exe: "x".to_string(),
        args: "'oops".to_string(),
        status: String::new(),
    };
    let err = match s.to_config() {
        Err(e) => e,
        Ok(_) => panic!("an unterminated quote must be rejected"),
    };
    assert_eq!(err.detail, "missing closing quote");
    assert_eq!(s.args, "'oops");
    assert_eq!(s.exe, "x");
}

#[test]
fn run_with_malformed_arguments_reports_and_stops() {
    let mut app = fresh(Config::default());
    app.update(Message::EditArgs("\"unterminated".to_string()));
    let effects = app.update(Message::Run);
    assert_eq!(emitted_status(&effects), "could not parse arguments");
}

#[test]
fn run_with_well_formed_arguments_spawns() {
    let mut app = fresh(Config::default());
    app.update(Message::SetExe("prog".to_string()));
    app.update(Message::EditArgs("-v 'a b'".to_string()));
    let effects = app.update(Message::Run);
    match &effects[..] {
        [Effect::RunProcess(c)] => {
            assert_eq!(c.exe, "prog");
            assert_eq!(c.arg, vec!["-v".to_string(), "a b".to_string()]);
        }
        _ => panic!("expected a process spawn"),
    }
}

#[test]
fn exe_dialog_is_seeded_with_current_exe() {
    let mut app = fresh(Config::default());
    app.update(Message::SetExe("seed".to_string()));
    let effects = app.update(Message::ExeDialog);
    match &effects[..] {
        [Effect::PickExe(s)] => assert_eq!(s, "seed"),
        _ => panic!("expected an executable picker"),
    }
}

#[test]
fn load_config_defers_a_read() {
    let mut app = fresh(Config::default());
    let effects = app.update(Message::LoadConfig("p.toml".to_string()));
    match &effects[..] {
        [Effect::ReadConfig(p)] => assert_eq!(p, "p.toml"),
        _ => panic!("expected a read"),
    }
}

#[test]
fn save_config_defers_a_write() {
    let mut app = fresh(Config::default());
    let c = Config {
        exe: "a".to_string(),
        arg: Vec::new(),
    };
    let effects = app.update(Message::SaveConfig(c, "p.toml".to_string()));
    match &effects[..] {
        [Effect::WriteConfig(c2, p)] => {
            assert_eq!(c2.exe, "a");
            assert_eq!(p, "p.toml");
        }
        _ => panic!("expected a write"),
    }
}

#[test]
fn save_dialog_converts_view_first() {
    let mut app = fresh(Config::default());
    app.update(Message::SetExe("prog".to_string()));
    app.update(Message::EditArgs("-x".to_string()));
    let effects = app.update(Message::SaveConfigDialog);
    match &effects[..] {
        [Effect::PickSavePath(c)] => {
            assert_eq!(c.exe, "prog");
            assert_eq!(c.arg, vec!["-x".to_string()]);
        }
        _ => panic!("expected a save-path prompt"),
    }
}

#[test]
fn save_dialog_with_malformed_arguments_reports_and_stops() {
    let mut app = fresh(Config::default());
    app.update(Message::EditArgs("'oops".to_string()));
    let effects = app.update(Message::SaveConfigDialog);
    assert_eq!(emitted_status(&effects), "could not parse arguments");
}

#[test]
fn load_dialog_and_exit_defer_their_effects() {
    let mut app = fresh(Config::default());
    let effects = app.update(Message::LoadConfigDialog);
    assert!(matches!(&effects[..], [Effect::PickLoadPath]));
    let effects = app.update(Message::Exit);
    assert!(matches!(&effects[..], [Effect::Quit]));
}

#[test]
fn run_outcome_reports_exit_status() {
    let m = run_outcome(Ok("exit status: 0".to_string()));
    assert!(matches!(m, Message::SetStatus(s) if s == "process finished with exit status: 0"));
}

#[test]
fn run_outcome_reports_spawn_error() {
    let m = run_outcome(Err("No such file or directory (os error 2)".to_string()));
    assert!(matches!(m, Message::SetStatus(s) if s == "No such file or directory (os error 2)"));
}

#[test]
fn exe_dialog_outcomes() {
    let m = exe_dialog_outcome(Some(Ok("/bin/prog".to_string())));
    assert!(matches!(m, Message::SetExe(p) if p == "/bin/prog"));
    let m = exe_dialog_outcome(Some(Err("\"bad\\u{fffd}path\"".to_string())));
    assert!(matches!(m, Message::SetStatus(s) if s == "\"bad\\u{fffd}path\" is not unicode"));
    let m = exe_dialog_outcome(None);
    assert!(matches!(m, Message::SetStatus(s) if s == "no executable selected"));
}

#[test]
fn load_outcome_merges_good_text() {
    let m = load_outcome(
        "c.toml".to_string(),
        Ok("exe = \"a\"\n".to_string()),
    );
    match m {
        Message::UpdateConfig(c, p) => {
            assert_eq!(c.exe, "a");
            assert!(c.arg.is_empty());
            assert_eq!(p, "c.toml");
        }
        _ => panic!("expected a config update"),
    }
}

#[test]
fn load_outcome_reports_failures() {
    let m = load_outcome("c.toml".to_string(), Err("denied".to_string()));
    assert!(matches!(m, Message::SetStatus(s) if s == "could not read c.toml"));
    let m = load_outcome("c.toml".to_string(), Ok("exe = ".to_string()));
    assert!(matches!(m, Message::SetStatus(s) if s == "could not deserialize c.toml"));
}

#[test]
fn save_write_outcomes() {
    let m = save_write_outcome("c.toml".to_string(), None);
    assert!(matches!(m, Message::SetStatus(s) if s == "saved config to c.toml"));
    let m = save_write_outcome("c.toml".to_string(), Some("denied".to_string()));
    assert!(matches!(m, Message::SetStatus(s) if s == "could not write c.toml"));
}

#[test]
fn dialog_outcomes_choose_or_report() {
    let m = load_dialog_outcome(Some("p.toml".to_string()));
    assert!(matches!(m, Message::LoadConfig(p) if p == "p.toml"));
    let m = load_dialog_outcome(None);
    assert!(matches!(m, Message::SetStatus(s) if s == "no file selected"));

    let c = Config {
        exe: "a".to_string(),
        arg: Vec::new(),
    };
    let m = save_dialog_outcome(c, Some("p.toml".to_string()));
    match m {
        Message::SaveConfig(c2, p) => {
            assert_eq!(c2.exe, "a");
            assert_eq!(p, "p.toml");
        }
        _ => panic!("expected a save"),
    }
    let c = Config::default();
    let m = save_dialog_outcome(c, None);
    assert!(matches!(m, Message::SetStatus(s) if s == "no path entered"));
}

#[test]
fn initial_message_prefers_the_startup_path() {
    let m = initial_message(Some("c.toml".to_string()));
    assert!(matches!(m, Message::LoadConfig(p) if p == "c.toml"));
    let m = initial_message(None);
    assert!(matches!(m, Message::Reload));
}

#[test]
fn bare_string_becomes_status_message() {
    let m = Message::from("note".to_string());
    assert!(matches!(m, Message::SetStatus(s) if s == "note"));
}

#[test]
fn defaults_are_empty_and_dark() {
    assert!(matches!(Theme::default(), Theme::Dark));
    let c = Config::default();
    assert_eq!(c.exe, "");
    assert!(c.arg.is_empty());
    let s = State::default();
    assert_eq!(s.exe, "");
    assert_eq!(s.args, "");
    assert_eq!(s.status, "");
    let app = App::new(Theme::Light, Config::default());
    assert!(matches!(app.theme, Theme::Light));
    assert_eq!(app.state.status, "");
}

#[test]
fn empty_argument_text_yields_no_arguments() {
    let s = State::default();
    let c = s.to_config().expect("empty text splits to nothing");
    assert!(c.arg.is_empty());
}

#[test]
fn set_theme_to_dark_reports_dark() {
    let mut app = fresh(Config::default());
    let effects = app.update(Message::SetTheme(Theme::Dark));
    assert_eq!(emitted_status(&effects), "set theme to Dark");
}

#[test]
fn reload_of_empty_config_clears_view() {
    let mut app = fresh(Config::default());
    app.update(Message::EditArgs("left over".to_string()));
    app.update(Message::Reload);
    assert_eq!(app.state.args, "");
    assert_eq!(app.state.exe, "");
}
