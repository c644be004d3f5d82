//! The `console` command's decisions before a session starts: help, usage
//! errors, the target and the presentation mode.
use vstd::prelude::*;
use crate::help::{invalid_usage, usage_text, INCORRECT_USAGE};
use crate::options::{parse_options, parse_prefix, views, Options};

verus! {

/// What the `console` command does with its arguments.
#[derive(Clone, Debug)]
pub enum ConsolePlan {
    /// Print the command's help.
    Help,
    /// Print this usage message and exit with status 1.
    Usage(String),
    /// Attach to `target`, in full-screen mode where `interactive`.
    Attach { target: String, interactive: bool },
}

/// Whether help was asked for, before or after the subcommand.
pub open spec fn help_asked(top: &Options, opts: &Options) -> bool {
    top.get_spec("h"@) is Some || top.get_spec("help"@) is Some || opts.get_spec("h"@) is Some
        || opts.get_spec("help"@) is Some
}

pub fn wants_help(top: &Options, opts: &Options) -> (r: bool)
    ensures
        r == help_asked(top, opts),
{
    top.contains_key("h") || top.contains_key("help") || opts.contains_key("h") || opts.contains_key(
        "help",
    )
}

/// The full-screen mode is used if and only if `--no-interactive` is absent and
/// output goes to an interactive terminal.
pub fn interactive_mode(opts: &Options, stdout_is_tty: bool) -> (r: bool)
    ensures
        r == (opts.get_spec("no-interactive"@) is None && stdout_is_tty),
{
    !opts.contains_key("no-interactive") && stdout_is_tty
}

/// Decide what `console` does. `args` starts with the subcommand itself; its
/// options are taken out, and exactly one argument, the target, must remain.
pub fn plan_console(args: Vec<String>, top: &Options, stdout_is_tty: bool) -> (r: ConsolePlan)
    ensures
        ({
            let parsed = parse_prefix(views(args@), args@.len() as int, false);
            let rest = parsed.0;
            let opts = parsed.1;
            let help = top.get_spec("h"@) is Some || top.get_spec("help"@) is Some
                || crate::options::lookup(opts, "h"@) is Some || crate::options::lookup(opts, "help"@)
                is Some;
            if help {
                r is Help
            } else if rest.len() != 2 {
                r is Usage && r->Usage_0@ == usage_text(INCORRECT_USAGE@, "console"@)
            } else {
                r is Attach && r->target@ == rest[1] && r->interactive == (crate::options::lookup(
                    opts,
                    "no-interactive"@,
                ) is None && stdout_is_tty)
            }
        }),
{
    let mut args = args;
    let opts = parse_options(&mut args, false);
    if wants_help(top, &opts) {
        ConsolePlan::Help
    } else if args.len() != 2 {
        ConsolePlan::Usage(invalid_usage(INCORRECT_USAGE, "console"))
    } else {
        assert(views(args@)[1] == args@[1]@);
        ConsolePlan::Attach { target: args[1].clone(), interactive: interactive_mode(&opts, stdout_is_tty) }
    }
}

} // verus!
