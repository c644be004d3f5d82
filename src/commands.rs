//! The command line's decisions: which subcommand runs, which help is shown,
//! whether a command's arguments fit it, and the choices its flags make.
use vstd::prelude::*;
use crate::api::PostServerAction;
use crate::help::{
    invalid_usage, invalid_usage_str, unknown_subcommand, usage_text,
    unknown_subcommand_spec, unknown_subcommand_str, INCORRECT_USAGE, TOO_MANY_ARGS,
};
use crate::options::{parse_options, parse_prefix, views, Options};
use crate::text::join;

verus! {

/// A subcommand.
#[derive(Clone, Copy, Debug, PartialEq, Eq, Structural)]
pub enum Command {
    Help,
    List,
    Start,
    Stop,
    Kill,
    Restart,
    Status,
    Logs,
    Console,
    Config,
    Accounts,
    Version,
}

/// The subcommand a name selects, aliases included.
pub open spec fn command_spec(name: Seq<char>) -> Option<Command> {
    if name == "help"@ {
        Some(Command::Help)
    } else if name == "list"@ || name == "list-apps"@ || name == "apps"@ {
        Some(Command::List)
    } else if name == "start"@ {
        Some(Command::Start)
    } else if name == "stop"@ {
        Some(Command::Stop)
    } else if name == "kill"@ {
        Some(Command::Kill)
    } else if name == "restart"@ {
        Some(Command::Restart)
    } else if name == "status"@ || name == "info"@ {
        Some(Command::Status)
    } else if name == "logs"@ {
        Some(Command::Logs)
    } else if name == "console"@ {
        Some(Command::Console)
    } else if name == "config"@ {
        Some(Command::Config)
    } else if name == "account"@ || name == "accounts"@ {
        Some(Command::Accounts)
    } else if name == "version"@ {
        Some(Command::Version)
    } else {
        None
    }
}

fn is(s: &String, lit: &str) -> (r: bool)
    ensures
        r == (s@ == lit@),
{
    *s == String::from_str(lit)
}

/// The subcommand named `name`, if any.
pub fn command_for(name: &String) -> (r: Option<Command>)
    ensures
        r == command_spec(name@),
{
    if is(name, "help") {
        Some(Command::Help)
    } else if is(name, "list") || is(name, "list-apps") || is(name, "apps") {
        Some(Command::List)
    } else if is(name, "start") {
        Some(Command::Start)
    } else if is(name, "stop") {
        Some(Command::Stop)
    } else if is(name, "kill") {
        Some(Command::Kill)
    } else if is(name, "restart") {
        Some(Command::Restart)
    } else if is(name, "status") || is(name, "info") {
        Some(Command::Status)
    } else if is(name, "logs") {
        Some(Command::Logs)
    } else if is(name, "console") {
        Some(Command::Console)
    } else if is(name, "config") {
        Some(Command::Config)
    } else if is(name, "account") || is(name, "accounts") {
        Some(Command::Accounts)
    } else if is(name, "version") {
        Some(Command::Version)
    } else {
        None
    }
}

/// Which help text to print, or a message about a help request that names
/// nothing known.
#[derive(Clone, Debug)]
pub enum HelpTopic {
    Main,
    Command(Command),
    ConfigView,
    ConfigEdit,
    ConfigReload,
    AccountsList,
    AccountsCreate,
    AccountsDelete,
    AccountsPasswd,
    /// Print this message, then exit with this status.
    Message(String, i32),
}

/// The commands whose help `help <command>` prints: all but `help`, `console`
/// and `version`.
pub open spec fn has_help_page(c: Command) -> bool {
    c != Command::Help && c != Command::Console && c != Command::Version
}

/// A help topic with its message as a sequence of characters.
pub enum HelpView {
    Main,
    Command(Command),
    ConfigView,
    ConfigEdit,
    ConfigReload,
    AccountsList,
    AccountsCreate,
    AccountsDelete,
    AccountsPasswd,
    Message(Seq<char>, i32),
}

impl View for HelpTopic {
    type V = HelpView;

    open spec fn view(&self) -> HelpView {
        match self {
            HelpTopic::Main => HelpView::Main,
            HelpTopic::Command(c) => HelpView::Command(*c),
            HelpTopic::ConfigView => HelpView::ConfigView,
            HelpTopic::ConfigEdit => HelpView::ConfigEdit,
            HelpTopic::ConfigReload => HelpView::ConfigReload,
            HelpTopic::AccountsList => HelpView::AccountsList,
            HelpTopic::AccountsCreate => HelpView::AccountsCreate,
            HelpTopic::AccountsDelete => HelpView::AccountsDelete,
            HelpTopic::AccountsPasswd => HelpView::AccountsPasswd,
            HelpTopic::Message(m, s) => HelpView::Message(m@, *s),
        }
    }
}

/// The help for the arguments of `help` (`args[0]` is `help` itself).
pub open spec fn help_spec(args: Seq<Seq<char>>) -> HelpView {
    if args.len() <= 1 {
        HelpView::Main
    } else {
        let sub = args[1];
        let unknown = HelpView::Message(
            usage_text(unknown_subcommand_spec(sub), Seq::empty()),
            1,
        );
        if args.len() == 2 {
            match command_spec(sub) {
                Some(c) => if has_help_page(c) {
                    HelpView::Command(c)
                } else {
                    unknown
                },
                None => unknown,
            }
        } else if sub == "config"@ || sub == "account"@ || sub == "accounts"@ {
            let topic = args[2];
            if args.len() > 3 {
                HelpView::Message(usage_text(TOO_MANY_ARGS@, sub), 0)
            } else if sub == "config"@ && (topic == "view"@ || topic == "show"@) {
                HelpView::ConfigView
            } else if sub == "config"@ && (topic == "edit"@ || topic == "modify"@) {
                HelpView::ConfigEdit
            } else if sub == "config"@ && topic == "reload"@ {
                HelpView::ConfigReload
            } else if sub != "config"@ && (topic == "list"@ || topic == "show"@) {
                HelpView::AccountsList
            } else if sub != "config"@ && (topic == "create"@ || topic == "add"@) {
                HelpView::AccountsCreate
            } else if sub != "config"@ && (topic == "delete"@ || topic == "remove"@) {
                HelpView::AccountsDelete
            } else if sub != "config"@ && topic == "passwd"@ {
                HelpView::AccountsPasswd
            } else {
                HelpView::Message(
                    usage_text(unknown_subcommand_spec(sub + " "@ + topic), sub),
                    0,
                )
            }
        } else {
            unknown
        }
    }
}

/// Decide what `help` prints.
pub fn help_topic(args: &Vec<String>) -> (r: HelpTopic)
    ensures
        r@ == help_spec(views(args@)),
{
    let ghost a = views(args@);
    if args.len() <= 1 {
        return HelpTopic::Main;
    }
    let sub = &args[1];
    assert(a[1] == sub@);
    proof {
        reveal_strlit("");
    }
    assert(""@ =~= Seq::<char>::empty());
    if args.len() == 2 {
        let known = match command_for(sub) {
            Some(c) => if c != Command::Help && c != Command::Console && c != Command::Version {
                Some(c)
            } else {
                None
            },
            None => None,
        };
        return match known {
            Some(c) => HelpTopic::Command(c),
            None => HelpTopic::Message(invalid_usage(unknown_subcommand(sub.as_str()).as_str(), ""), 1),
        };
    }
    let is_config = is(sub, "config");
    if !(is_config || is(sub, "account") || is(sub, "accounts")) {
        return HelpTopic::Message(invalid_usage(unknown_subcommand(sub.as_str()).as_str(), ""), 1);
    }
    let topic = &args[2];
    assert(a[2] == topic@);
    if args.len() > 3 {
        HelpTopic::Message(invalid_usage_str(String::from_str(TOO_MANY_ARGS), sub.clone()), 0)
    } else if is_config && (is(topic, "view") || is(topic, "show")) {
        HelpTopic::ConfigView
    } else if is_config && (is(topic, "edit") || is(topic, "modify")) {
        HelpTopic::ConfigEdit
    } else if is_config && is(topic, "reload") {
        HelpTopic::ConfigReload
    } else if !is_config && (is(topic, "list") || is(topic, "show")) {
        HelpTopic::AccountsList
    } else if !is_config && (is(topic, "create") || is(topic, "add")) {
        HelpTopic::AccountsCreate
    } else if !is_config && (is(topic, "delete") || is(topic, "remove")) {
        HelpTopic::AccountsDelete
    } else if !is_config && is(topic, "passwd") {
        HelpTopic::AccountsPasswd
    } else {
        let a1 = join(sub.as_str(), " ");
        let named = join(a1.as_str(), topic.as_str());
        HelpTopic::Message(invalid_usage_str(unknown_subcommand_str(named), sub.clone()), 0)
    }
}

/// How many operands (the subcommand included) a command takes.
#[derive(Clone, Copy, Debug, PartialEq, Eq, Structural)]
pub enum ArgShape {
    Exactly(usize),
    AtLeast(usize),
}

/// What a command does with its arguments.
pub enum CommandPlan {
    /// Print the command's help.
    Help,
    /// Print this usage message and exit with status 1.
    Usage(String),
    /// Run with these operands (the subcommand first) and options.
    Run(Vec<String>, Options),
}

/// Whether `n` operands fit `shape`.
pub open spec fn shape_fits(shape: ArgShape, n: int) -> bool {
    match shape {
        ArgShape::Exactly(k) => n == k,
        ArgShape::AtLeast(k) => n >= k,
    }
}

/// Decide what a command does: help where asked for, a usage message where the
/// operands do not fit `shape`, and otherwise run.
pub fn plan_command(args: Vec<String>, top: &Options, shape: ArgShape, name: &str) -> (r: CommandPlan)
    ensures
        ({
            let parsed = parse_prefix(views(args@), args@.len() as int, false);
            let help = top.get_spec("h"@) is Some || top.get_spec("help"@) is Some
                || crate::options::lookup(parsed.1, "h"@) is Some || crate::options::lookup(
                parsed.1,
                "help"@,
            ) is Some;
            if help {
                r is Help
            } else if !shape_fits(shape, parsed.0.len() as int) {
                r is Usage && r->Usage_0@ == usage_text(INCORRECT_USAGE@, name@)
            } else {
                r is Run && views(r->Run_0@) == parsed.0 && r->Run_1.entries_spec() == parsed.1
            }
        }),
{
    let mut args = args;
    let opts = parse_options(&mut args, false);
    let help = top.contains_key("h") || top.contains_key("help") || opts.contains_key("h")
        || opts.contains_key("help");
    let fits = match shape {
        ArgShape::Exactly(k) => args.len() == k,
        ArgShape::AtLeast(k) => args.len() >= k,
    };
    if help {
        CommandPlan::Help
    } else if !fits {
        CommandPlan::Usage(invalid_usage(INCORRECT_USAGE, name))
    } else {
        CommandPlan::Run(args, opts)
    }
}

/// How `list` prints the apps.
#[derive(Clone, Copy, Debug, PartialEq, Eq, Structural)]
pub enum ListFormat {
    Json,
    Csv,
    Table,
}

/// The format `--format` asks for (a table by default), or the message for a
/// value that is none of json, csv and table.
pub fn list_format(opts: &Options) -> (r: Result<ListFormat, String>)
    ensures
        match opts.get_spec("format"@) {
            None => r == Ok::<ListFormat, String>(ListFormat::Table),
            Some(v) => if v == "json"@ {
                r == Ok::<ListFormat, String>(ListFormat::Json)
            } else if v == "csv"@ {
                r == Ok::<ListFormat, String>(ListFormat::Csv)
            } else if v == "table"@ {
                r == Ok::<ListFormat, String>(ListFormat::Table)
            } else {
                r is Err && r->Err_0@ == "Error: Invalid value for flag --format \""@ + v
                    + "\"! (Valid values: json,csv,table)"@
            },
        },
{
    match opts.get("format") {
        None => Ok(ListFormat::Table),
        Some(v) => {
            if is(&v, "json") {
                Ok(ListFormat::Json)
            } else if is(&v, "csv") {
                Ok(ListFormat::Csv)
            } else if is(&v, "table") {
                Ok(ListFormat::Table)
            } else {
                let a = join("Error: Invalid value for flag --format \"", v.as_str());
                Err(join(a.as_str(), "\"! (Valid values: json,csv,table)"))
            }
        },
    }
}

/// How `restart` stops an app: killed with `-k`/`--kill`, terminated otherwise.
pub fn restart_action(opts: &Options) -> (r: PostServerAction)
    ensures
        r == (if opts.get_spec("k"@) is Some || opts.get_spec("kill"@) is Some {
            PostServerAction::Kill
        } else {
            PostServerAction::Term
        }),
{
    if opts.contains_key("k") || opts.contains_key("kill") {
        PostServerAction::Kill
    } else {
        PostServerAction::Term
    }
}

/// How `logs` shows what it fetched.
#[derive(Clone, Copy, Debug, PartialEq, Eq, Structural)]
pub enum PagerMode {
    /// Print straight to the output.
    Plain,
    /// Hand the text to the system pager (`$PAGER`, else `less`).
    System,
    /// Use the built-in pager.
    BuiltIn,
}

/// The pager `logs` uses, given its options, `$PAGER` and `$NOPAGER` (`None`
/// where unset) and whether output is a terminal. The built-in pager is used
/// with `--use-builtin-pager` or an empty `$PAGER`, and wherever the system
/// pager is unavailable.
pub fn pager_mode(
    opts: &Options,
    pager_env: &Option<String>,
    nopager_env: &Option<String>,
    stdout_is_tty: bool,
    system_pager_available: bool,
) -> (r: PagerMode)
    ensures
        ({
            let use_builtin = opts.get_spec("use-builtin-pager"@) is Some || (pager_env is Some
                && pager_env->Some_0@.len() == 0);
            let no_pager = opts.get_spec("no-pager"@) is Some || (nopager_env is Some
                && nopager_env->Some_0@ == "true"@) || (!stdout_is_tty && pager_env is None
                && !use_builtin);
            r == (if no_pager {
                PagerMode::Plain
            } else if !use_builtin && system_pager_available {
                PagerMode::System
            } else {
                PagerMode::BuiltIn
            })
        }),
{
    let use_builtin = opts.contains_key("use-builtin-pager") || match pager_env {
        Some(p) => p.as_str().is_empty(),
        None => false,
    };
    let no_pager = opts.contains_key("no-pager") || match nopager_env {
        Some(v) => is(v, "true"),
        None => false,
    } || (!stdout_is_tty && pager_env.is_none() && !use_builtin);
    if no_pager {
        PagerMode::Plain
    } else if !use_builtin && system_pager_available {
        PagerMode::System
    } else {
        PagerMode::BuiltIn
    }
}

} // verus!
