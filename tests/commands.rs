use octynectl::api::{check_response, ActionResponse, PostServerAction};
use octynectl::commands::{
    command_for, help_topic, list_format, pager_mode, plan_command, restart_action, ArgShape,
    Command, CommandPlan, HelpTopic, ListFormat, PagerMode,
};
use octynectl::options::parse_options;
use octynectl::protocol::{ConsoleMessage, ProtocolVersion};
use octynectl::reader::{logs_step, Frame, LogsStep, ReaderInput};

fn strings(v: &[&str]) -> Vec<String> {
    v.iter().map(|s| s.to_string()).collect()
}

fn opts(v: &[&str]) -> octynectl::options::Options {
    let mut a = strings(v);
    parse_options(&mut a, false)
}

#[test]
fn subcommand_aliases() {
    assert_eq!(command_for(&"apps".to_string()), Some(Command::List));
    assert_eq!(command_for(&"list-apps".to_string()), Some(Command::List));
    assert_eq!(command_for(&"info".to_string()), Some(Command::Status));
    assert_eq!(command_for(&"account".to_string()), Some(Command::Accounts));
    assert_eq!(command_for(&"console".to_string()), Some(Command::Console));
    assert_eq!(command_for(&"frobnicate".to_string()), None);
}

#[test]
fn help_topics() {
    assert!(matches!(help_topic(&strings(&["help"])), HelpTopic::Main));
    assert!(matches!(help_topic(&strings(&["help", "apps"])), HelpTopic::Command(Command::List)));
    match help_topic(&strings(&["help", "console"])) {
        HelpTopic::Message(m, status) => {
            assert_eq!(m, "Unknown subcommand: console, run `octynectl help` for more information.");
            assert_eq!(status, 1);
        }
        other => panic!("unexpected {:?}", other),
    }
    assert!(matches!(help_topic(&strings(&["help", "config", "show"])), HelpTopic::ConfigView));
    assert!(matches!(help_topic(&strings(&["help", "accounts", "add"])), HelpTopic::AccountsCreate));
    assert!(matches!(help_topic(&strings(&["help", "account", "passwd"])), HelpTopic::AccountsPasswd));
    match help_topic(&strings(&["help", "config", "list"])) {
        HelpTopic::Message(m, status) => {
            assert_eq!(m, "Unknown subcommand: config list, run `octynectl help config` for more information.");
            assert_eq!(status, 0);
        }
        other => panic!("unexpected {:?}", other),
    }
    match help_topic(&strings(&["help", "config", "view", "x"])) {
        HelpTopic::Message(m, status) => {
            assert_eq!(m, "Too many arguments, run `octynectl help config` for more information.");
            assert_eq!(status, 0);
        }
        other => panic!("unexpected {:?}", other),
    }
    match help_topic(&strings(&["help", "logs", "x"])) {
        HelpTopic::Message(_, status) => assert_eq!(status, 1),
        other => panic!("unexpected {:?}", other),
    }
}

#[test]
fn command_plans() {
    let top = opts(&[]);
    match plan_command(strings(&["kill", "a", "b", "--x"]), &top, ArgShape::AtLeast(2), "kill") {
        CommandPlan::Run(args, o) => {
            assert_eq!(args, strings(&["kill", "a", "b"]));
            assert!(o.contains_key("x"));
        }
        _ => panic!("expected to run"),
    }
    match plan_command(strings(&["kill"]), &top, ArgShape::AtLeast(2), "kill") {
        CommandPlan::Usage(m) => assert_eq!(m, "Incorrect usage, run `octynectl help kill` for more information."),
        _ => panic!("expected usage"),
    }
    let help = opts(&["--help"]);
    assert!(matches!(plan_command(strings(&["list"]), &help, ArgShape::Exactly(1), "list"), CommandPlan::Help));
}

#[test]
fn list_formats() {
    assert_eq!(list_format(&opts(&[])), Ok(ListFormat::Table));
    assert_eq!(list_format(&opts(&["--format=csv"])), Ok(ListFormat::Csv));
    assert_eq!(list_format(&opts(&["--format=json"])), Ok(ListFormat::Json));
    assert_eq!(
        list_format(&opts(&["--format=xml"])),
        Err("Error: Invalid value for flag --format \"xml\"! (Valid values: json,csv,table)".to_string())
    );
}

#[test]
fn restart_stop_choice() {
    assert_eq!(restart_action(&opts(&["-k"])), PostServerAction::Kill);
    assert_eq!(restart_action(&opts(&["--kill"])), PostServerAction::Kill);
    assert_eq!(restart_action(&opts(&[])), PostServerAction::Term);
}

#[test]
fn pager_modes() {
    let none = opts(&[]);
    assert_eq!(pager_mode(&none, &None, &None, true, true), PagerMode::System);
    assert_eq!(pager_mode(&none, &None, &None, false, true), PagerMode::Plain);
    assert_eq!(pager_mode(&none, &Some("more".to_string()), &None, false, true), PagerMode::System);
    assert_eq!(pager_mode(&none, &Some(String::new()), &None, true, true), PagerMode::BuiltIn);
    assert_eq!(pager_mode(&none, &None, &Some("true".to_string()), true, true), PagerMode::Plain);
    assert_eq!(pager_mode(&opts(&["--no-pager"]), &None, &None, true, true), PagerMode::Plain);
    assert_eq!(pager_mode(&opts(&["--use-builtin-pager"]), &None, &None, false, true), PagerMode::BuiltIn);
    assert_eq!(pager_mode(&none, &None, &None, true, false), PagerMode::BuiltIn);
}

#[test]
fn response_checks() {
    let ok = ActionResponse { success: true, error: String::new() };
    let failed = ActionResponse { success: false, error: String::new() };
    assert_eq!(check_response(200, Ok(ok.clone()), "Octyne failed to reload the config!", true), Ok(()));
    assert_eq!(
        check_response(200, Ok(failed.clone()), "Octyne failed to reload the config!", true),
        Err("Octyne failed to reload the config!".to_string())
    );
    assert_eq!(
        check_response(503, Ok(failed), "x", true),
        Err("Error: Received status code 503 from Octyne!".to_string())
    );
    assert_eq!(
        check_response(503, Ok(ActionResponse { success: false, error: "busy".to_string() }), "x", true),
        Err("busy".to_string())
    );
}

#[test]
fn logs_take_first_output() {
    match logs_step(ProtocolVersion::Legacy, ReaderInput::Frame(Frame::Text("line1\nline2".to_string()))) {
        LogsStep::Done(t) => assert_eq!(t, "line1\nline2"),
        other => panic!("unexpected {:?}", other),
    }
    assert!(matches!(logs_step(ProtocolVersion::V2, ReaderInput::Frame(Frame::Text("{}".to_string()))), LogsStep::Parse(_)));
    let out = ConsoleMessage { kind: "output".to_string(), data: "log".to_string(), message: String::new(), id: String::new() };
    match logs_step(ProtocolVersion::V2, ReaderInput::Envelope(Ok(out))) {
        LogsStep::Done(t) => assert_eq!(t, "log"),
        other => panic!("unexpected {:?}", other),
    }
    let err = ConsoleMessage { kind: "error".to_string(), data: String::new(), message: "nope".to_string(), id: String::new() };
    match logs_step(ProtocolVersion::V2, ReaderInput::Envelope(Ok(err))) {
        LogsStep::Fail(m) => assert_eq!(m, "Error: nope"),
        other => panic!("unexpected {:?}", other),
    }
    match logs_step(ProtocolVersion::Legacy, ReaderInput::End) {
        LogsStep::Fail(m) => assert_eq!(m, "Error: Received no message from Octyne!"),
        other => panic!("unexpected {:?}", other),
    }
    match logs_step(ProtocolVersion::V2, ReaderInput::Frame(Frame::Close)) {
        LogsStep::Fail(m) => assert_eq!(m, "Error: Received close message from Octyne!"),
        other => panic!("unexpected {:?}", other),
    }
    assert!(matches!(logs_step(ProtocolVersion::V2, ReaderInput::Frame(Frame::Other(Ok(String::new())))), LogsStep::ReadNext));
}
