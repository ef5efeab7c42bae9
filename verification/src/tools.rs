//! The tools of the gateway and the dispatcher that routes a call to one of
//! them and turns whatever comes of it into an envelope.

pub mod exec;
pub mod fs;

use vstd::prelude::*;
use vstd::string::StringExecFns;
use crate::envelope::{
    err_view, ok_view, outcome_view, EnvelopeView, ToolBatchExecuteResponse, ToolEnvelope,
    ToolExecuteRequest,
};
use crate::errors::{ApiError, Failure};
use crate::json::{json_map, json_null, json_object, JsonModel};
use crate::text::{occurs_in, trim, trimmed};

verus! {

/// The tools a call can name.
#[derive(Clone, Copy, Debug, PartialEq, Eq, Structural)]
pub enum ToolKind {
    Health,
    ReadFile,
    SearchFiles,
    ListFiles,
    ApplyPatch,
    Exec,
}

/// The tool of an exact name.
pub open spec fn kind_of(name: Seq<char>) -> Option<ToolKind> {
    if name == "health"@ {
        Some(ToolKind::Health)
    } else if name == "read_file"@ {
        Some(ToolKind::ReadFile)
    } else if name == "search_files"@ {
        Some(ToolKind::SearchFiles)
    } else if name == "list_files"@ {
        Some(ToolKind::ListFiles)
    } else if name == "apply_patch"@ {
        Some(ToolKind::ApplyPatch)
    } else if name == "exec"@ {
        Some(ToolKind::Exec)
    } else {
        None
    }
}

/// The names of the registered tools.
pub open spec fn registered_names() -> Seq<Seq<char>> {
    seq!["health"@, "read_file"@, "search_files"@, "list_files"@, "apply_patch"@, "exec"@]
}

/// The names of the registered tools, as the gateway says what it can do.
/// Each of them names a tool, and every tool has its name among them.
pub fn tool_names() -> (names: Vec<&'static str>)
    ensures
        crate::globs::strs(names@) == registered_names(),
        forall|i: int| 0 <= i < names@.len() ==> kind_of(#[trigger] names@[i]@) is Some,
        forall|name: Seq<char>|
            kind_of(name) is Some <==> crate::globs::strs(names@).contains(name),
{
    let names = vec!["health", "read_file", "search_files", "list_files", "apply_patch", "exec"];
    assert(crate::globs::strs(names@) =~= registered_names());
    proof {
        lemma_registered_names();
    }
    names
}

/// Exactly the registered names name a tool.
pub proof fn lemma_registered_names()
    ensures
        forall|name: Seq<char>| kind_of(name) is Some <==> registered_names().contains(name),
{
    let names = registered_names();
    assert forall|name: Seq<char>| kind_of(name) is Some <==> names.contains(name) by {}
}

/// The tool a call names, after trimming the name; nothing for a name that
/// is not registered.
pub fn tool_kind(tool: &str) -> (kind: Option<ToolKind>)
    ensures
        kind == kind_of(trimmed(tool@)),
{
    let name = trim(tool);
    let name = name.as_str();
    if name.eq("health") {
        Some(ToolKind::Health)
    } else if name.eq("read_file") {
        Some(ToolKind::ReadFile)
    } else if name.eq("search_files") {
        Some(ToolKind::SearchFiles)
    } else if name.eq("list_files") {
        Some(ToolKind::ListFiles)
    } else if name.eq("apply_patch") {
        Some(ToolKind::ApplyPatch)
    } else if name.eq("exec") {
        Some(ToolKind::Exec)
    } else {
        None
    }
}

/// The tool a request names. The host decodes the request's input for that
/// tool and runs its handler.
pub fn route(req: &ToolExecuteRequest) -> (kind: Option<ToolKind>)
    ensures
        kind == kind_of(trimmed(req.tool@)),
{
    tool_kind(req.tool.as_str())
}

/// The failure of a call that names no registered tool.
pub open spec fn unknown_tool(name: Seq<char>) -> Failure {
    Failure::BadRequest("unknown tool: "@ + name)
}

/// The envelope of a failure: exit code 1 and the failure's message.
pub open spec fn failure_envelope(
    name: Seq<char>,
    failure: Failure,
    elapsed_ms: nat,
) -> EnvelopeView {
    err_view(name, 1, failure.message(), JsonModel::Null, elapsed_ms)
}

/// The envelope a call is answered with. An unregistered name is a bad
/// request; `health` succeeds by itself; for every other tool the handler's
/// envelope is passed on, and its failure becomes a failure envelope. The
/// elapsed time replaces whatever the handler recorded.
pub open spec fn dispatch_outcome(
    tool: Seq<char>,
    outcome: Result<EnvelopeView, Failure>,
    elapsed_ms: nat,
) -> EnvelopeView {
    let name = trimmed(tool);
    match kind_of(name) {
        None => failure_envelope(name, unknown_tool(name), elapsed_ms),
        Some(ToolKind::Health) => ok_view(
            "health"@,
            "ok"@,
            JsonModel::Object(Map::empty()),
            elapsed_ms,
        ),
        Some(_) => match outcome {
            Ok(env) => EnvelopeView { timing_ms: elapsed_ms, ..env },
            Err(failure) => failure_envelope(name, failure, elapsed_ms),
        },
    }
}

/// Turns what came of a call into its envelope. `outcome` is the result of
/// the tool's handler, and is looked at only for a registered tool other
/// than `health`; `elapsed_ms` is the time since the call came in. The
/// result is always `Ok`: a tool-level failure is data.
pub fn dispatch_tool(tool: &str, outcome: Result<ToolEnvelope, ApiError>, elapsed_ms: u128) -> (r:
    Result<ToolEnvelope, ApiError>)
    ensures
        r matches Ok(env) && env@ == dispatch_outcome(
            tool@,
            outcome_view(outcome),
            elapsed_ms as nat,
        ),
{
    let name = trim(tool);
    let out = match tool_kind(tool) {
        None => Err(ApiError::BadRequest("unknown tool: ".to_owned().concat(name.as_str()))),
        Some(ToolKind::Health) => {
            Ok(ToolEnvelope::ok("health", "ok".to_owned(), json_object(json_map()), elapsed_ms))
        },
        Some(_) => outcome,
    };
    match out {
        Ok(mut env) => {
            env.timing_ms = elapsed_ms;
            Ok(env)
        },
        Err(e) => Ok(ToolEnvelope::err(name.as_str(), 1, e.to_string(), json_null(), elapsed_ms)),
    }
}

/// A call whose handler has run: the name it gave, what came of the
/// handler, and the time the call took.
#[derive(Debug)]
pub struct FinishedCall {
    pub tool: String,
    pub outcome: Result<ToolEnvelope, ApiError>,
    pub elapsed_ms: u128,
}

/// The envelope a finished call is answered with.
pub open spec fn answer(call: FinishedCall) -> EnvelopeView {
    dispatch_outcome(call.tool@, outcome_view(call.outcome), call.elapsed_ms as nat)
}

/// The envelopes of a batch: one for each call, in the order of the calls.
/// A call that failed has a failure envelope like any other and changes
/// nothing about the rest.
pub fn batch_execute_tool(calls: Vec<FinishedCall>) -> (r: Result<
    ToolBatchExecuteResponse,
    ApiError,
>)
    ensures
        r matches Ok(resp) && resp.results@.len() == calls@.len() && forall|i: int|
            0 <= i < calls@.len() ==> (#[trigger] resp.results@[i])@ == answer(calls@[i]),
{
    let ghost all = calls@;
    let mut results: Vec<ToolEnvelope> = Vec::new();
    for call in it: calls
        invariant
            it.seq() == all,
            results@.len() == it.index(),
            forall|i: int| 0 <= i < results@.len() ==> (#[trigger] results@[i])@ == answer(all[i]),
    {
        match dispatch_tool(call.tool.as_str(), call.outcome, call.elapsed_ms) {
            Ok(env) => results.push(env),
            Err(_) => {},
        }
    }
    Ok(ToolBatchExecuteResponse { results })
}

/// A call that names no registered tool is answered with a failure envelope
/// whose `stderr` says "unknown tool", whatever else came with the call.
pub proof fn lemma_unknown_tool_is_reported(
    tool: Seq<char>,
    outcome: Result<EnvelopeView, Failure>,
    elapsed_ms: nat,
)
    requires
        kind_of(trimmed(tool)) is None,
    ensures
        !dispatch_outcome(tool, outcome, elapsed_ms).ok,
        dispatch_outcome(tool, outcome, elapsed_ms).exit_code == 1,
        occurs_in("unknown tool"@, dispatch_outcome(tool, outcome, elapsed_ms).stderr),
{
    reveal_strlit("unknown tool");
    reveal_strlit("unknown tool: ");
    reveal_strlit("bad_request: ");
    let stderr = dispatch_outcome(tool, outcome, elapsed_ms).stderr;
    let needle = "unknown tool"@;
    let at: int = 13;
    assert(stderr.subrange(at, at + needle.len()) =~= needle);
}

/// Every call is answered with an envelope that carries the elapsed time,
/// and with a failure envelope exactly where the tool failed or is unknown.
pub proof fn lemma_dispatch_records_time(
    tool: Seq<char>,
    outcome: Result<EnvelopeView, Failure>,
    elapsed_ms: nat,
)
    ensures
        dispatch_outcome(tool, outcome, elapsed_ms).timing_ms == elapsed_ms,
        kind_of(trimmed(tool)) == Some(ToolKind::Health) ==> dispatch_outcome(
            tool,
            outcome,
            elapsed_ms,
        ).ok,
        kind_of(trimmed(tool)) is Some && kind_of(trimmed(tool)) != Some(ToolKind::Health)
            && outcome is Err ==> !dispatch_outcome(tool, outcome, elapsed_ms).ok
            && dispatch_outcome(tool, outcome, elapsed_ms).exit_code == 1,
{
}

} // verus!
