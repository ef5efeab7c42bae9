//! The command sandbox: an allow-list of commands, a working directory
//! under the root, and a bounded lifetime.
//!
//! The host spawns the child as the plan says, with its standard input
//! closed and its two output streams captured, and reports how it ended.

use vstd::prelude::*;
use vstd::string::StringExecFns;
use serde_json::Value;
use crate::config::RunnerConfig;
use crate::envelope::{err_view, ok_view, outcome_view, EnvelopeView, ToolEnvelope};
use crate::errors::{ApiError, Failure};
use crate::json::{
    json_insert, json_map, json_model, json_object, json_signed, json_text, json_text_list,
    JsonModel,
};
use crate::text::{clone_texts, option_text, texts, trim, trimmed};
use crate::tools::fs::{resolve_under_root, resolved};

verus! {

/// The input of `exec`.
#[derive(Debug)]
pub struct ExecIn {
    pub cmd: String,
    pub args: Vec<String>,
    pub cwd: Option<String>,
    pub timeout_s: Option<u64>,
}

/// What the host is to run: the command, its arguments as they are, the
/// working directory and the seconds after which it gives up.
#[derive(Debug)]
pub struct ExecPlan {
    pub cmd: String,
    pub args: Vec<String>,
    pub cwd: String,
    pub timeout_s: u64,
}

/// How the child ended.
#[derive(Debug)]
pub enum ExecOutcome {
    /// It could not be started.
    SpawnFailed(String),
    /// It did not end in time.
    TimedOut,
    /// Waiting for it failed.
    WaitFailed(String),
    /// It ended, with an exit code unless a signal ended it, and with the
    /// two captured streams as text.
    Exited { code: Option<i32>, stdout: String, stderr: String },
}

/// What an `ExecPlan` holds.
pub struct PlanView {
    pub cmd: Seq<char>,
    pub args: Seq<Seq<char>>,
    pub cwd: Seq<char>,
    pub timeout_s: nat,
}

impl View for ExecPlan {
    type V = PlanView;

    open spec fn view(&self) -> PlanView {
        PlanView {
            cmd: self.cmd@,
            args: texts(self.args@),
            cwd: self.cwd@,
            timeout_s: self.timeout_s as nat,
        }
    }
}

/// The seconds a command may run where the call names none.
pub const DEFAULT_TIMEOUT_S: u64 = 600;

/// The commands that may be run.
pub open spec fn is_allowed(cmd: Seq<char>) -> bool {
    ||| cmd == "uv"@
    ||| cmd == "python"@
    ||| cmd == "pytest"@
    ||| cmd == "ruff"@
    ||| cmd == "mypy"@
    ||| cmd == "cargo"@
    ||| cmd == "git"@
}

/// Whether the command is one of those that may be run.
pub fn allowed_cmd(cmd: &str) -> (allowed: bool)
    ensures
        allowed == is_allowed(cmd@),
{
    cmd.eq("uv") || cmd.eq("python") || cmd.eq("pytest") || cmd.eq("ruff") || cmd.eq("mypy")
        || cmd.eq("cargo") || cmd.eq("git")
}

/// What is to be run for a call: the trimmed command must be allowed, and
/// the working directory, if one is named, must resolve under the root;
/// where none is named it is the root.
pub open spec fn plan_of(
    cfg: RunnerConfig,
    cmd: Seq<char>,
    args: Seq<Seq<char>>,
    cwd: Option<Seq<char>>,
    timeout_s: Option<u64>,
    canonical_cwd: Option<Seq<char>>,
) -> Result<PlanView, Failure> {
    if !is_allowed(trimmed(cmd)) {
        Err(Failure::Forbidden("cmd not allowed: "@ + trimmed(cmd)))
    } else {
        let timeout_s = match timeout_s {
            Some(t) => t as nat,
            None => DEFAULT_TIMEOUT_S as nat,
        };
        match cwd {
            Some(dir) => match resolved(cfg.root_dir@, dir, canonical_cwd) {
                Err(e) => Err(e),
                Ok(full) => Ok(PlanView { cmd: trimmed(cmd), args, cwd: full, timeout_s }),
            },
            None => Ok(PlanView { cmd: trimmed(cmd), args, cwd: cfg.root_dir@, timeout_s }),
        }
    }
}

/// What a plan decision holds.
pub open spec fn plan_view(r: Result<ExecPlan, ApiError>) -> Result<PlanView, Failure> {
    match r {
        Ok(plan) => Ok(plan@),
        Err(e) => Err(e@),
    }
}

/// What the host is to run for a call, or why it is to run nothing.
/// `canonical_cwd` is the canonical form of the working directory's
/// candidate path, and is looked at only where the call names one.
pub fn exec_plan(cfg: &RunnerConfig, inp: &ExecIn, canonical_cwd: Option<String>) -> (r: Result<
    ExecPlan,
    ApiError,
>)
    ensures
        plan_view(r) == plan_of(
            *cfg,
            inp.cmd@,
            texts(inp.args@),
            option_text(inp.cwd),
            inp.timeout_s,
            option_text(canonical_cwd),
        ),
{
    let cmd = trim(inp.cmd.as_str());
    if !allowed_cmd(cmd.as_str()) {
        return Err(ApiError::Forbidden("cmd not allowed: ".to_owned().concat(cmd.as_str())));
    }
    let cwd = match &inp.cwd {
        Some(dir) => match resolve_under_root(cfg, dir.as_str(), canonical_cwd) {
            Ok(full) => full.as_str().to_owned(),
            Err(e) => {
                return Err(e);
            },
        },
        None => cfg.root_dir.clone(),
    };
    let timeout_s = match inp.timeout_s {
        Some(t) => t,
        None => DEFAULT_TIMEOUT_S,
    };
    Ok(ExecPlan { cmd, args: clone_texts(&inp.args), cwd, timeout_s })
}

/// What the envelope of a run records: the command, its arguments, the exit
/// code and, after a failure, what the child wrote to its standard output.
pub open spec fn run_json(
    cmd: Seq<char>,
    args: Seq<Seq<char>>,
    code: int,
    stdout: Option<Seq<char>>,
) -> JsonModel {
    let base = Map::empty().insert("cmd"@, JsonModel::Text(cmd)).insert(
        "args"@,
        JsonModel::List(args.map_values(|s: Seq<char>| JsonModel::Text(s))),
    ).insert("exit_code"@, JsonModel::Number(code));
    match stdout {
        Some(text) => JsonModel::Object(base.insert("stdout"@, JsonModel::Text(text))),
        None => JsonModel::Object(base),
    }
}

/// What an `ExecOutcome` holds.
pub enum OutcomeView {
    SpawnFailed(Seq<char>),
    TimedOut,
    WaitFailed(Seq<char>),
    Exited { code: Option<i32>, stdout: Seq<char>, stderr: Seq<char> },
}

impl View for ExecOutcome {
    type V = OutcomeView;

    open spec fn view(&self) -> OutcomeView {
        match self {
            ExecOutcome::SpawnFailed(e) => OutcomeView::SpawnFailed(e@),
            ExecOutcome::TimedOut => OutcomeView::TimedOut,
            ExecOutcome::WaitFailed(e) => OutcomeView::WaitFailed(e@),
            ExecOutcome::Exited { code, stdout, stderr } => OutcomeView::Exited {
                code: *code,
                stdout: stdout@,
                stderr: stderr@,
            },
        }
    }
}

/// The exit code a child is reported with: its own, or 1 where it has none.
pub open spec fn reported_code(code: Option<i32>) -> int {
    match code {
        Some(c) => c as int,
        None => 1,
    }
}

/// What a run that followed `plan` comes to. Exit code 0 is a success with
/// the child's standard output. Any other code is a failure envelope that
/// keeps the code and carries the child's standard error. A child that
/// could not be started or awaited, or that ran out of time, is a failure
/// of no class.
pub open spec fn run_outcome(plan: PlanView, outcome: OutcomeView) -> Result<
    EnvelopeView,
    Failure,
> {
    match outcome {
        OutcomeView::SpawnFailed(e) => Err(Failure::Other(e)),
        OutcomeView::TimedOut => Err(Failure::Other("timeout"@)),
        OutcomeView::WaitFailed(e) => Err(Failure::Other(e)),
        OutcomeView::Exited { code, stdout, stderr } => if reported_code(code) == 0 {
            Ok(ok_view("exec"@, stdout, run_json(plan.cmd, plan.args, 0, None), 0))
        } else {
            Ok(
                err_view(
                    "exec"@,
                    reported_code(code),
                    stderr,
                    run_json(plan.cmd, plan.args, reported_code(code), Some(stdout)),
                    0,
                ),
            )
        },
    }
}

/// What `exec` answers: the refusal of the command or of the working
/// directory, or what the run came to.
pub open spec fn exec_outcome(
    cfg: RunnerConfig,
    cmd: Seq<char>,
    args: Seq<Seq<char>>,
    cwd: Option<Seq<char>>,
    timeout_s: Option<u64>,
    canonical_cwd: Option<Seq<char>>,
    outcome: OutcomeView,
) -> Result<EnvelopeView, Failure> {
    match plan_of(cfg, cmd, args, cwd, timeout_s, canonical_cwd) {
        Err(e) => Err(e),
        Ok(plan) => run_outcome(plan, outcome),
    }
}

fn run_record(cmd: &str, args: &Vec<String>, code: i32, stdout: Option<&str>) -> (v: Value)
    ensures
        json_model(v) == run_json(
            cmd@,
            texts(args@),
            code as int,
            match stdout {
                Some(text) => Some(text@),
                None => None,
            },
        ),
{
    let mut m = json_map();
    json_insert(&mut m, "cmd", json_text(cmd));
    json_insert(&mut m, "args", json_text_list(args));
    json_insert(&mut m, "exit_code", json_signed(code as i64));
    match stdout {
        Some(text) => json_insert(&mut m, "stdout", json_text(text)),
        None => {},
    }
    json_object(m)
}

/// The envelope of a run that followed `plan`, or its failure.
pub fn finish_run(plan: &ExecPlan, outcome: ExecOutcome) -> (r: Result<ToolEnvelope, ApiError>)
    ensures
        outcome_view(r) == run_outcome(plan@, outcome@),
{
    match outcome {
        ExecOutcome::SpawnFailed(e) => Err(ApiError::Other(e)),
        ExecOutcome::TimedOut => Err(ApiError::Other("timeout".to_owned())),
        ExecOutcome::WaitFailed(e) => Err(ApiError::Other(e)),
        ExecOutcome::Exited { code, stdout, stderr } => {
            let code = match code {
                Some(c) => c,
                None => 1,
            };
            if code == 0 {
                let record = run_record(plan.cmd.as_str(), &plan.args, code, None);
                Ok(ToolEnvelope::ok("exec", stdout, record, 0))
            } else {
                let record = run_record(
                    plan.cmd.as_str(),
                    &plan.args,
                    code,
                    Some(stdout.as_str()),
                );
                Ok(ToolEnvelope::err("exec", code, stderr, record, 0))
            }
        },
    }
}

/// Runs an allow-listed command. `canonical_cwd` is the canonical form of
/// the working directory's candidate path; `outcome` is how the child
/// ended, and is looked at only where `exec_plan` gave a plan.
pub fn exec(
    cfg: &RunnerConfig,
    inp: &ExecIn,
    canonical_cwd: Option<String>,
    outcome: ExecOutcome,
) -> (r: Result<ToolEnvelope, ApiError>)
    ensures
        outcome_view(r) == exec_outcome(
            *cfg,
            inp.cmd@,
            texts(inp.args@),
            option_text(inp.cwd),
            inp.timeout_s,
            option_text(canonical_cwd),
            outcome@,
        ),
{
    match exec_plan(cfg, inp, canonical_cwd) {
        Err(e) => Err(e),
        Ok(plan) => finish_run(&plan, outcome),
    }
}

/// Whatever is planned is safe to run: the command is on the allow-list,
/// the arguments are those of the call, and the working directory is the
/// root, or an absolute path without `..` that has the root as a prefix.
pub proof fn lemma_plan_is_safe(
    cfg: RunnerConfig,
    cmd: Seq<char>,
    args: Seq<Seq<char>>,
    cwd: Option<Seq<char>>,
    timeout_s: Option<u64>,
    canonical_cwd: Option<Seq<char>>,
)
    ensures
        plan_of(cfg, cmd, args, cwd, timeout_s, canonical_cwd) matches Ok(plan) ==> {
            &&& is_allowed(plan.cmd)
            &&& plan.args == args
            &&& plan.cwd == cfg.root_dir@ || crate::tools::fs::contained(plan.cwd, cfg.root_dir@)
        },
{
}

/// A command that is not on the allow-list is refused before anything is
/// run, whatever the host reports.
pub proof fn lemma_unlisted_command_is_refused(
    cfg: RunnerConfig,
    cmd: Seq<char>,
    args: Seq<Seq<char>>,
    cwd: Option<Seq<char>>,
    timeout_s: Option<u64>,
    canonical_cwd: Option<Seq<char>>,
    outcome: OutcomeView,
)
    requires
        !is_allowed(trimmed(cmd)),
    ensures
        plan_of(cfg, cmd, args, cwd, timeout_s, canonical_cwd) is Err,
        exec_outcome(cfg, cmd, args, cwd, timeout_s, canonical_cwd, outcome) == Err::<
            EnvelopeView,
            Failure,
        >(Failure::Forbidden("cmd not allowed: "@ + trimmed(cmd))),
{
}

} // verus!
