//! Requests to the debug adapter: their names, their arguments, and what is said when one cannot
//! be sent.
use crate::json::{
    Json, array_value, json_of, jsons_of, no_members, object_value, put_bool, put_int, put_text,
};
use crate::text::concat2;
use serde_json::Value;
use vstd::prelude::*;

verus! {

/// A request to the debug adapter.
#[derive(Clone, Copy, PartialEq, Eq, Structural, Debug)]
pub enum RequestKind {
    Initialize,
    Launch,
    ConfigurationDone,
    Threads,
    StackTrace,
    Scopes,
    Variables,
    SetBreakpoints,
    Continue,
    Pause,
    Restart,
    Disconnect,
    Next,
    StepIn,
    StepOut,
}

impl RequestKind {
    /// The name of the request in the protocol.
    pub open spec fn name(self) -> Seq<char> {
        match self {
            RequestKind::Initialize => "initialize"@,
            RequestKind::Launch => "launch"@,
            RequestKind::ConfigurationDone => "configurationDone"@,
            RequestKind::Threads => "threads"@,
            RequestKind::StackTrace => "stackTrace"@,
            RequestKind::Scopes => "scopes"@,
            RequestKind::Variables => "variables"@,
            RequestKind::SetBreakpoints => "setBreakpoints"@,
            RequestKind::Continue => "continue"@,
            RequestKind::Pause => "pause"@,
            RequestKind::Restart => "restart"@,
            RequestKind::Disconnect => "disconnect"@,
            RequestKind::Next => "next"@,
            RequestKind::StepIn => "stepIn"@,
            RequestKind::StepOut => "stepOut"@,
        }
    }

    /// The name of the request in the protocol.
    pub fn command(&self) -> (text: &'static str)
        ensures
            text@ == self.name(),
    {
        match self {
            RequestKind::Initialize => "initialize",
            RequestKind::Launch => "launch",
            RequestKind::ConfigurationDone => "configurationDone",
            RequestKind::Threads => "threads",
            RequestKind::StackTrace => "stackTrace",
            RequestKind::Scopes => "scopes",
            RequestKind::Variables => "variables",
            RequestKind::SetBreakpoints => "setBreakpoints",
            RequestKind::Continue => "continue",
            RequestKind::Pause => "pause",
            RequestKind::Restart => "restart",
            RequestKind::Disconnect => "disconnect",
            RequestKind::Next => "next",
            RequestKind::StepIn => "stepIn",
            RequestKind::StepOut => "stepOut",
        }
    }

    /// What stands before the error when the request cannot be sent.
    pub open spec fn complaint(self) -> Seq<char> {
        match self {
            RequestKind::Initialize => "Debug init error: "@,
            RequestKind::Launch => "Debug launch error: "@,
            RequestKind::ConfigurationDone => "DAP configurationDone failed: "@,
            RequestKind::Threads => "threads request error: "@,
            RequestKind::StackTrace => "stackTrace request error: "@,
            RequestKind::Scopes => "scopes request error: "@,
            RequestKind::Variables => "variables request error: "@,
            RequestKind::SetBreakpoints => "setBreakpoints error: "@,
            RequestKind::Continue => "Continue error: "@,
            RequestKind::Pause => "Pause error: "@,
            RequestKind::Restart => "Restart error: "@,
            RequestKind::Disconnect => "Disconnect error: "@,
            RequestKind::Next => "StepOver error: "@,
            RequestKind::StepIn => "StepInto error: "@,
            RequestKind::StepOut => "StepOut error: "@,
        }
    }

    /// What is said when the request cannot be sent.
    pub fn failure_text(&self, error: &str) -> (text: String)
        ensures
            text@ == self.complaint() + error@,
    {
        match self {
            RequestKind::Initialize => concat2("Debug init error: ", error),
            RequestKind::Launch => concat2("Debug launch error: ", error),
            RequestKind::ConfigurationDone => concat2("DAP configurationDone failed: ", error),
            RequestKind::Threads => concat2("threads request error: ", error),
            RequestKind::StackTrace => concat2("stackTrace request error: ", error),
            RequestKind::Scopes => concat2("scopes request error: ", error),
            RequestKind::Variables => concat2("variables request error: ", error),
            RequestKind::SetBreakpoints => concat2("setBreakpoints error: ", error),
            RequestKind::Continue => concat2("Continue error: ", error),
            RequestKind::Pause => concat2("Pause error: ", error),
            RequestKind::Restart => concat2("Restart error: ", error),
            RequestKind::Disconnect => concat2("Disconnect error: ", error),
            RequestKind::Next => concat2("StepOver error: ", error),
            RequestKind::StepIn => concat2("StepInto error: ", error),
            RequestKind::StepOut => concat2("StepOut error: ", error),
        }
    }
}

// ---------------------------------------------------------------------------------------------
// Arguments
// ---------------------------------------------------------------------------------------------
/// Arguments without any member.
pub open spec fn no_arguments_json() -> Json {
    Json::Object(no_members())
}

/// Arguments that name a thread.
pub open spec fn thread_json(thread_id: i64) -> Json {
    Json::Object(no_members().insert("threadId"@, Json::Int(thread_id as int)))
}

/// Arguments that name a thread, unless it is the thread zero.
pub open spec fn pause_json(thread_id: i64) -> Json {
    if thread_id != 0 {
        thread_json(thread_id)
    } else {
        no_arguments_json()
    }
}

/// Arguments that ask for the first twenty frames of a thread.
pub open spec fn stack_trace_json(thread_id: i64) -> Json {
    Json::Object(
        no_members().insert("threadId"@, Json::Int(thread_id as int)).insert(
            "startFrame"@,
            Json::Int(0),
        ).insert("levels"@, Json::Int(20)),
    )
}

/// Arguments that name a frame.
pub open spec fn frame_json(frame_id: i64) -> Json {
    Json::Object(no_members().insert("frameId"@, Json::Int(frame_id as int)))
}

/// Arguments that name a group of variables.
pub open spec fn reference_json(reference: i64) -> Json {
    Json::Object(no_members().insert("variablesReference"@, Json::Int(reference as int)))
}

/// Arguments that leave the program running.
pub open spec fn disconnect_json() -> Json {
    Json::Object(no_members().insert("terminateDebuggee"@, Json::Bool(false)))
}

/// Arguments that introduce the editor to an adapter.
pub open spec fn initialize_json(adapter: Seq<char>) -> Json {
    Json::Object(
        no_members().insert("clientID"@, Json::Text("den"@)).insert(
            "clientName"@,
            Json::Text("den"@),
        ).insert("adapterID"@, Json::Text(adapter)).insert("linesStartAt1"@, Json::Bool(true)).insert(
            "columnsStartAt1"@,
            Json::Bool(true),
        ).insert("pathFormat"@, Json::Text("path"@)),
    )
}

/// One breakpoint in the arguments.
pub open spec fn line_json(line: i64) -> Json {
    Json::Object(no_members().insert("line"@, Json::Int(line as int)))
}

/// Arguments that give all the breakpoints of a source.
pub open spec fn breakpoints_json(source_path: Seq<char>, lines: Seq<i64>) -> Json {
    Json::Object(
        no_members().insert(
            "source"@,
            Json::Object(no_members().insert("path"@, Json::Text(source_path))),
        ).insert("breakpoints"@, Json::Array(lines.map_values(|line: i64| line_json(line)))),
    )
}

/// Arguments without any member.
pub fn no_arguments() -> (arguments: Value)
    ensures
        json_of(arguments) == no_arguments_json(),
{
    object_value(serde_json::Map::new())
}

fn one_int(key: &str, number: i64) -> (arguments: Value)
    ensures
        json_of(arguments) == Json::Object(no_members().insert(key@, Json::Int(number as int))),
{
    let mut members = serde_json::Map::new();
    put_int(&mut members, key, number);
    object_value(members)
}

/// Arguments that name a thread.
pub fn thread_arguments(thread_id: i64) -> (arguments: Value)
    ensures
        json_of(arguments) == thread_json(thread_id),
{
    one_int("threadId", thread_id)
}

/// Arguments that name a thread, unless it is the thread zero.
pub fn pause_arguments(thread_id: i64) -> (arguments: Value)
    ensures
        json_of(arguments) == pause_json(thread_id),
{
    if thread_id != 0 {
        thread_arguments(thread_id)
    } else {
        no_arguments()
    }
}

/// Arguments that ask for the first twenty frames of a thread.
pub fn stack_trace_arguments(thread_id: i64) -> (arguments: Value)
    ensures
        json_of(arguments) == stack_trace_json(thread_id),
{
    let mut members = serde_json::Map::new();
    put_int(&mut members, "threadId", thread_id);
    put_int(&mut members, "startFrame", 0);
    put_int(&mut members, "levels", 20);
    object_value(members)
}

/// Arguments that name a frame.
pub fn frame_arguments(frame_id: i64) -> (arguments: Value)
    ensures
        json_of(arguments) == frame_json(frame_id),
{
    one_int("frameId", frame_id)
}

/// Arguments that name a group of variables.
pub fn reference_arguments(reference: i64) -> (arguments: Value)
    ensures
        json_of(arguments) == reference_json(reference),
{
    one_int("variablesReference", reference)
}

/// Arguments that leave the program running.
pub fn disconnect_arguments() -> (arguments: Value)
    ensures
        json_of(arguments) == disconnect_json(),
{
    let mut members = serde_json::Map::new();
    put_bool(&mut members, "terminateDebuggee", false);
    object_value(members)
}

/// Arguments that introduce the editor to an adapter.
pub fn initialize_arguments(adapter: &str) -> (arguments: Value)
    ensures
        json_of(arguments) == initialize_json(adapter@),
{
    let mut members = serde_json::Map::new();
    put_text(&mut members, "clientID", "den");
    put_text(&mut members, "clientName", "den");
    put_text(&mut members, "adapterID", adapter);
    put_bool(&mut members, "linesStartAt1", true);
    put_bool(&mut members, "columnsStartAt1", true);
    put_text(&mut members, "pathFormat", "path");
    object_value(members)
}

/// Arguments that give all the breakpoints of a source.
pub fn set_breakpoints_arguments(source_path: &str, lines: &Vec<i64>) -> (arguments: Value)
    ensures
        json_of(arguments) == breakpoints_json(source_path@, lines@),
{
    let mut source = serde_json::Map::new();
    put_text(&mut source, "path", source_path);
    let mut breakpoints: Vec<Value> = Vec::new();
    let mut i: usize = 0;
    while i < lines.len()
        invariant
            i <= lines@.len(),
            breakpoints@.len() == i,
            forall|k: int|
                0 <= k < i ==> json_of(#[trigger] breakpoints@[k]) == line_json(lines@[k]),
        decreases lines.len() - i,
    {
        breakpoints.push(one_int("line", lines[i]));
        i += 1;
    }
    assert(jsons_of(breakpoints@) =~= lines@.map_values(|line: i64| line_json(line)));
    let mut members = serde_json::Map::new();
    let _ = members.insert("source".to_owned(), object_value(source));
    let _ = members.insert("breakpoints".to_owned(), array_value(breakpoints));
    object_value(members)
}

} // verus!
