//! The uniform call and response records.

use vstd::prelude::*;
use serde_json::Value;
use crate::errors::{ApiError, Failure};
use crate::json::{json_model, JsonModel};

verus! {

/// One tool call: a tool name and its JSON input.
#[derive(Debug)]
pub struct ToolExecuteRequest {
    pub tool: String,
    pub input: Value,
}

/// An ordered list of calls.
#[derive(Debug)]
pub struct ToolBatchExecuteRequest {
    pub calls: Vec<ToolExecuteRequest>,
}

/// The envelopes of a batch, in the order of its calls.
#[derive(Debug)]
pub struct ToolBatchExecuteResponse {
    pub results: Vec<ToolEnvelope>,
}

/// The result record of every tool call, success or failure.
#[derive(Debug)]
pub struct ToolEnvelope {
    pub tool: String,
    pub ok: bool,
    pub exit_code: i32,
    pub stdout: String,
    pub stderr: String,
    pub timing_ms: u128,
    pub artifacts: Value,
}

/// What an envelope holds.
pub struct EnvelopeView {
    pub tool: Seq<char>,
    pub ok: bool,
    pub exit_code: int,
    pub stdout: Seq<char>,
    pub stderr: Seq<char>,
    pub timing_ms: nat,
    pub artifacts: JsonModel,
}

impl View for ToolEnvelope {
    type V = EnvelopeView;

    open spec fn view(&self) -> EnvelopeView {
        EnvelopeView {
            tool: self.tool@,
            ok: self.ok,
            exit_code: self.exit_code as int,
            stdout: self.stdout@,
            stderr: self.stderr@,
            timing_ms: self.timing_ms as nat,
            artifacts: json_model(self.artifacts),
        }
    }
}

/// The envelope of a success: exit code 0, the output in `stdout`, nothing
/// in `stderr`.
pub open spec fn ok_view(
    tool: Seq<char>,
    stdout: Seq<char>,
    artifacts: JsonModel,
    timing_ms: nat,
) -> EnvelopeView {
    EnvelopeView {
        tool,
        ok: true,
        exit_code: 0,
        stdout,
        stderr: Seq::empty(),
        timing_ms,
        artifacts,
    }
}

/// The envelope of a failure: the message in `stderr`, nothing in `stdout`.
pub open spec fn err_view(
    tool: Seq<char>,
    exit_code: int,
    stderr: Seq<char>,
    artifacts: JsonModel,
    timing_ms: nat,
) -> EnvelopeView {
    EnvelopeView { tool, ok: false, exit_code, stdout: Seq::empty(), stderr, timing_ms, artifacts }
}

/// What the result of a tool holds.
pub open spec fn outcome_view(r: Result<ToolEnvelope, ApiError>) -> Result<EnvelopeView, Failure> {
    match r {
        Ok(env) => Ok(env@),
        Err(e) => Err(e@),
    }
}

impl ToolEnvelope {
    /// The envelope of a success.
    pub fn ok(tool: &str, stdout: String, artifacts: Value, timing_ms: u128) -> (env: ToolEnvelope)
        ensures
            env@ == ok_view(tool@, stdout@, json_model(artifacts), timing_ms as nat),
            env.stdout == stdout,
            env.artifacts == artifacts,
    {
        let env = ToolEnvelope {
            tool: tool.to_owned(),
            ok: true,
            exit_code: 0,
            stdout,
            stderr: String::new(),
            timing_ms,
            artifacts,
        };
        env
    }

    /// The envelope of a failure.
    pub fn err(
        tool: &str,
        exit_code: i32,
        stderr: String,
        artifacts: Value,
        timing_ms: u128,
    ) -> (env: ToolEnvelope)
        ensures
            env@ == err_view(
                tool@,
                exit_code as int,
                stderr@,
                json_model(artifacts),
                timing_ms as nat,
            ),
            env.stderr == stderr,
            env.artifacts == artifacts,
    {
        let env = ToolEnvelope {
            tool: tool.to_owned(),
            ok: false,
            exit_code,
            stdout: String::new(),
            stderr,
            timing_ms,
            artifacts,
        };
        env
    }
}

} // verus!
