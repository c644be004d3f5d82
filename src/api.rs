//! The supervisor's one-shot responses, and what a command concludes from them.
use vstd::prelude::*;
use crate::status::{pad_name, status_name, status_to_text};
use crate::text::{decimal, decimal_spec, join};

verus! {

/// The answer to a start, stop, kill or terminate request.
#[derive(Clone, Debug)]
pub struct ActionResponse {
    pub success: bool,
    pub error: String,
}

/// The error object the supervisor sends with a refusal.
#[derive(Clone, Debug)]
pub struct ErrorResponse {
    pub error: String,
}

/// An app's entry in the list of apps.
#[derive(Clone, Copy, Debug, PartialEq, Eq, Structural)]
pub struct ServerExtraInfo {
    pub status: i64,
    pub to_delete: bool,
}

/// What to ask the supervisor to do with an app.
#[derive(Clone, Copy, Debug, PartialEq, Eq, Structural)]
pub enum PostServerAction {
    Start,
    Stop,
    Kill,
    Term,
}

/// The action's name, as it is written in messages.
pub open spec fn action_name(a: PostServerAction) -> Seq<char> {
    match a {
        PostServerAction::Start => "Start"@,
        PostServerAction::Stop => "Stop"@,
        PostServerAction::Kill => "Kill"@,
        PostServerAction::Term => "Term"@,
    }
}

/// The request body that asks for the action.
pub open spec fn action_body(a: PostServerAction) -> Seq<char> {
    match a {
        PostServerAction::Start => "START"@,
        PostServerAction::Stop => "STOP"@,
        PostServerAction::Kill => "KILL"@,
        PostServerAction::Term => "TERM"@,
    }
}

/// The verb that names the action in a failure message.
pub open spec fn action_verb(a: PostServerAction) -> Seq<char> {
    match a {
        PostServerAction::Start => "start"@,
        PostServerAction::Stop => "stop"@,
        PostServerAction::Kill => "kill"@,
        PostServerAction::Term => "term"@,
    }
}

impl PostServerAction {
    /// The action's name.
    pub fn name(&self) -> (r: String)
        ensures
            r@ == action_name(*self),
    {
        match self {
            PostServerAction::Start => String::from_str("Start"),
            PostServerAction::Stop => String::from_str("Stop"),
            PostServerAction::Kill => String::from_str("Kill"),
            PostServerAction::Term => String::from_str("Term"),
        }
    }

    /// The body of the request for the action.
    pub fn request_body(&self) -> (r: String)
        ensures
            r@ == action_body(*self),
    {
        match self {
            PostServerAction::Start => String::from_str("START"),
            PostServerAction::Stop => String::from_str("STOP"),
            PostServerAction::Kill => String::from_str("KILL"),
            PostServerAction::Term => String::from_str("TERM"),
        }
    }

    /// The verb for the action in messages.
    pub fn verb(&self) -> (r: String)
        ensures
            r@ == action_verb(*self),
    {
        match self {
            PostServerAction::Start => String::from_str("start"),
            PostServerAction::Stop => String::from_str("stop"),
            PostServerAction::Kill => String::from_str("kill"),
            PostServerAction::Term => String::from_str("term"),
        }
    }
}

/// The text of an unexpected HTTP status.
pub open spec fn status_code_message(status: u16) -> Seq<char> {
    "Received status code "@ + decimal_spec(status as nat) + " from Octyne!"@
}

fn status_code_text(status: u16) -> (r: String)
    ensures
        r@ == status_code_message(status),
{
    let a = join("Received status code ", decimal(status as u64).as_str());
    join(a.as_str(), " from Octyne!")
}

/// What a request answered by an `ActionResponse` came to: `failure` is the
/// message for an unsuccessful answer without an error, and `prefixed` marks
/// the endpoints that write `"Error: "` before an unexpected status.
pub open spec fn response_outcome(
    status: u16,
    response: Result<ActionResponse, String>,
    failure: Seq<char>,
    prefixed: bool,
) -> Result<(), Seq<char>> {
    match response {
        Err(e) => Err("Received corrupt response from Octyne! "@ + e@),
        Ok(json) => if json.error@.len() != 0 {
            Err(json.error@)
        } else if status != 200 {
            Err(if prefixed { "Error: "@ + status_code_message(status) } else { status_code_message(status) })
        } else if !json.success {
            Err(failure)
        } else {
            Ok(())
        },
    }
}

/// Decide how a request answered by an `ActionResponse` went.
pub fn check_response(status: u16, response: Result<ActionResponse, String>, failure: &str, prefixed: bool) -> (r: Result<(), String>)
    ensures
        match (r, response_outcome(status, response, failure@, prefixed)) {
            (Ok(()), Ok(())) => true,
            (Err(m), Err(e)) => m@ == e,
            _ => false,
        },
{
    match response {
        Err(e) => Err(join("Received corrupt response from Octyne! ", e.as_str())),
        Ok(json) => {
            if !json.error.as_str().is_empty() {
                Err(json.error)
            } else if status != 200 {
                let m = status_code_text(status);
                Err(if prefixed { join("Error: ", m.as_str()) } else { m })
            } else if !json.success {
                Err(String::from_str(failure))
            } else {
                Ok(())
            }
        },
    }
}

/// What an action request came to, given the HTTP status and the parsed body
/// (or the reason it could not be parsed).
pub open spec fn action_outcome(
    status: u16,
    response: Result<ActionResponse, String>,
    action: PostServerAction,
) -> Result<(), Seq<char>> {
    match response {
        Err(e) => Err("Received corrupt response from Octyne! "@ + e@),
        Ok(json) => if status != 200 && json.error@.len() == 0 {
            Err(status_code_message(status))
        } else if json.error@.len() != 0 {
            Err(json.error@)
        } else if !json.success {
            Err("Octyne failed to "@ + action_verb(action) + " the app!"@)
        } else {
            Ok(())
        },
    }
}

/// Decide how an action request went.
pub fn action_result(status: u16, response: Result<ActionResponse, String>, action: PostServerAction) -> (r: Result<(), String>)
    ensures
        match (r, action_outcome(status, response, action)) {
            (Ok(()), Ok(())) => true,
            (Err(m), Err(e)) => m@ == e,
            _ => false,
        },
{
    let a = join("Octyne failed to ", action.verb().as_str());
    check_response(status, response, join(a.as_str(), " the app!").as_str(), false)
}

/// Decide whether a request succeeded from its HTTP status and the body's
/// `error` field: the error where there is one, else a complaint about any
/// status but 200 (after `"Error: "` where `prefixed`).
pub fn status_check(status: u16, error: &String, prefixed: bool) -> (r: Result<(), String>)
    ensures
        error@.len() != 0 ==> r is Err && r->Err_0@ == error@,
        error@.len() == 0 && status != 200 ==> r is Err && r->Err_0@ == (if prefixed {
            "Error: "@ + status_code_message(status)
        } else {
            status_code_message(status)
        }),
        error@.len() == 0 && status == 200 ==> r is Ok,
{
    if !error.as_str().is_empty() {
        Err(error.clone())
    } else if status != 200 {
        let m = status_code_text(status);
        Err(if prefixed { join("Error: ", m.as_str()) } else { m })
    } else {
        Ok(())
    }
}

/// Decide whether a listing of apps succeeded, given the HTTP status and the
/// body's `error` field.
pub fn servers_result(status: u16, error: &String) -> (r: Result<(), String>)
    ensures
        error@.len() != 0 ==> r is Err && r->Err_0@ == error@,
        error@.len() == 0 && status != 200 ==> r is Err && r->Err_0@ == "Error: "@
            + status_code_message(status),
        error@.len() == 0 && status == 200 ==> r is Ok,
{
    status_check(status, error, true)
}

/// The greeting with which supervisors that predate the version endpoint answer it.
pub const LEGACY_GREETING: &'static str = "Hi, octyne is online and listening to this port successfully!";

/// The supervisor's version from the answer to a version request: `1.0.x` for
/// the old greeting, a complaint about any status but 200, and otherwise the
/// `version` field of the parsed body (or why it could not be parsed).
pub fn version_answer(status: u16, body: &String, parsed: Result<String, String>) -> (r: Result<String, String>)
    ensures
        body@ == LEGACY_GREETING@ ==> r is Ok && r->Ok_0@ == "1.0.x"@,
        body@ != LEGACY_GREETING@ && status != 200 ==> r is Err && r->Err_0@ == status_code_message(
            status,
        ),
        body@ != LEGACY_GREETING@ && status == 200 ==> match parsed {
            Ok(v) => r is Ok && r->Ok_0@ == v@,
            Err(e) => r is Err && r->Err_0@ == "Received corrupt response from Octyne! "@ + e@,
        },
{
    if *body == String::from_str(LEGACY_GREETING) {
        Ok(String::from_str("1.0.x"))
    } else if status != 200 {
        Err(status_code_text(status))
    } else {
        match parsed {
            Ok(v) => Ok(v),
            Err(e) => Err(join("Received corrupt response from Octyne! ", e.as_str())),
        }
    }
}

/// How an action is named in the line that reports its failure for one app.
pub open spec fn action_gerund(a: PostServerAction) -> Seq<char> {
    match a {
        PostServerAction::Start => "starting"@,
        PostServerAction::Stop => "stopping"@,
        PostServerAction::Kill => "killing"@,
        PostServerAction::Term => "stopping"@,
    }
}

/// The line reporting that `action` failed for app `name` with `error`.
pub fn failure_line(action: PostServerAction, name: &str, error: &str) -> (r: String)
    ensures
        r@ == "Error "@ + action_gerund(action) + " "@ + name@ + ": "@ + error@,
{
    let gerund = match action {
        PostServerAction::Start => "starting",
        PostServerAction::Stop => "stopping",
        PostServerAction::Kill => "killing",
        PostServerAction::Term => "stopping",
    };
    let a = join("Error ", gerund);
    let b = join(a.as_str(), " ");
    let c = join(b.as_str(), name);
    let d = join(c.as_str(), ": ");
    join(d.as_str(), error)
}

/// What restarting an app does after its stop request ended with `stopped`:
/// start it again (`Ok`), or report the failure and leave it.
pub fn after_restart_stop(name: &str, stopped: Result<(), String>) -> (r: Result<(), String>)
    ensures
        match stopped {
            Ok(()) => r is Ok,
            Err(e) => r is Err && r->Err_0@ == "Error stopping "@ + name@ + " before restart: "@ + e@,
        },
{
    match stopped {
        Ok(()) => Ok(()),
        Err(e) => {
            let a = join("Error stopping ", name);
            let b = join(a.as_str(), " before restart: ");
            Err(join(b.as_str(), e.as_str()))
        },
    }
}

/// The report on an app's restart after its start request ended with `started`.
pub fn after_restart_start(name: &str, started: Result<(), String>) -> (r: Result<(), String>)
    ensures
        match started {
            Ok(()) => r is Ok,
            Err(e) => r is Err && r->Err_0@ == "Error starting "@ + name@ + " after restart: "@ + e@,
        },
{
    match started {
        Ok(()) => Ok(()),
        Err(e) => {
            let a = join("Error starting ", name);
            let b = join(a.as_str(), " after restart: ");
            Err(join(b.as_str(), e.as_str()))
        },
    }
}

/// An app's entry in the list: a bare number is its status; otherwise the
/// parsed object, or status -1 where it could not be parsed.
pub fn server_info_from(number: Option<i64>, parsed: Option<ServerExtraInfo>) -> (r: ServerExtraInfo)
    ensures
        r == match number {
            Some(n) => ServerExtraInfo { status: n, to_delete: false },
            None => match parsed {
                Some(p) => p,
                None => ServerExtraInfo { status: -1i64, to_delete: false },
            },
        },
{
    match number {
        Some(n) => ServerExtraInfo { status: n, to_delete: false },
        None => match parsed {
            Some(p) => p,
            None => ServerExtraInfo { status: -1, to_delete: false },
        },
    }
}

/// A status name in lower case, as the CSV listing writes it.
pub open spec fn status_name_lower(status: int) -> Seq<char> {
    if status == 0 {
        "offline"@
    } else if status == 1 {
        "online"@
    } else if status == 2 {
        "crashed"@
    } else {
        "unknown"@
    }
}

/// The CSV row of an app: name, status in lower case, and the deletion mark.
pub fn csv_row(name: &str, info: ServerExtraInfo) -> (r: String)
    ensures
        r@ == name@ + ","@ + status_name_lower(info.status as int) + ","@ + (if info.to_delete {
            "true"@
        } else {
            "false"@
        }),
{
    let status = if info.status == 0 {
        "offline"
    } else if info.status == 1 {
        "online"
    } else if info.status == 2 {
        "crashed"
    } else {
        "unknown"
    };
    let a = join(name, ",");
    let b = join(a.as_str(), status);
    let c = join(b.as_str(), ",");
    join(c.as_str(), if info.to_delete { "true" } else { "false" })
}

/// The table row of an app: indented name padded to `longest_name` bytes, then
/// its status and, where it is marked for deletion, a note.
pub fn table_row(name: &str, longest_name: usize, info: ServerExtraInfo) -> (r: String)
    requires
        name.len() <= longest_name,
    ensures
        r@ == "    "@ + name@ + Seq::new((longest_name - name.len()) as nat, |i: int| ' ') + " | "@
            + status_name(info.status as int) + (if info.to_delete {
            " (marked for deletion)"@
        } else {
            Seq::empty()
        }),
{
    let a = join("    ", name);
    let b = join(a.as_str(), pad_name(name, longest_name).as_str());
    let c = join(b.as_str(), " | ");
    let d = join(c.as_str(), status_to_text(info.status).as_str());
    if info.to_delete {
        join(d.as_str(), " (marked for deletion)")
    } else {
        d
    }
}

} // verus!
