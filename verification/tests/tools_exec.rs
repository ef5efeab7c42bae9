use runner::config::RunnerConfig;
use runner::errors::ApiError;
use runner::tools::exec::{allowed_cmd, exec, exec_plan, finish_run, ExecIn, ExecOutcome, ExecPlan, DEFAULT_TIMEOUT_S};
use serde_json::Value;

const ROOT: &str = "/srv/project";

fn test_cfg() -> RunnerConfig {
    RunnerConfig::new(ROOT.to_string(), Some("dev"), None).unwrap()
}

fn object(entries: Vec<(&str, Value)>) -> Value {
    let mut m = serde_json::Map::new();
    for (k, v) in entries {
        m.insert(k.to_string(), v);
    }
    Value::Object(m)
}

fn call(cmd: &str, args: &[&str]) -> ExecIn {
    ExecIn { cmd: cmd.to_string(), args: args.iter().map(|a| a.to_string()).collect(), cwd: None, timeout_s: None }
}

fn exited(code: Option<i32>, stdout: &str, stderr: &str) -> ExecOutcome {
    ExecOutcome::Exited { code, stdout: stdout.to_string(), stderr: stderr.to_string() }
}

#[test]
fn allow_list_is_closed() {
    for cmd in ["uv", "python", "pytest", "ruff", "mypy", "cargo", "git"] {
        assert!(allowed_cmd(cmd), "{}", cmd);
    }
    for cmd in ["", "sh", "bash", "rm", "Git", "git ", " git", "python3", "cargo;ls", "/usr/bin/git", "git\0"] {
        assert!(!allowed_cmd(cmd), "{:?}", cmd);
    }
}

#[test]
fn plan_defaults_to_the_root_and_ten_minutes() {
    let cfg = test_cfg();
    let plan = exec_plan(&cfg, &call("  git ", &["status", "--short; rm -rf /"]), None).unwrap();
    assert_eq!(plan.cmd, "git");
    assert_eq!(plan.args, vec!["status", "--short; rm -rf /"]);
    assert_eq!(plan.cwd, ROOT);
    assert_eq!(plan.timeout_s, 600);
    assert_eq!(DEFAULT_TIMEOUT_S, 600);
}

#[test]
fn plan_takes_the_working_directory_and_the_timeout() {
    let cfg = test_cfg();
    let mut inp = call("cargo", &["test"]);
    inp.cwd = Some("rs/runner".to_string());
    inp.timeout_s = Some(5);
    let plan = exec_plan(&cfg, &inp, Some("/srv/project/rs/runner".to_string())).unwrap();
    assert_eq!(plan.cwd, "/srv/project/rs/runner");
    assert_eq!(plan.timeout_s, 5);
    inp.timeout_s = Some(0);
    assert_eq!(exec_plan(&cfg, &inp, None).unwrap().timeout_s, 0);
    assert_eq!(exec_plan(&cfg, &inp, None).unwrap().cwd, "/srv/project/rs/runner");
}

#[test]
fn plan_names_each_refusal() {
    let cfg = test_cfg();
    assert!(matches!(exec_plan(&cfg, &call(" rm ", &["-rf", "/"]), None), Err(ApiError::Forbidden(m)) if m == "cmd not allowed: rm"));
    assert!(matches!(exec_plan(&cfg, &call("", &[]), None), Err(ApiError::Forbidden(m)) if m == "cmd not allowed: "));
    let mut inp = call("git", &["log"]);
    inp.cwd = Some("..".to_string());
    assert!(matches!(exec_plan(&cfg, &inp, Some("/srv".to_string())), Err(ApiError::Forbidden(m)) if m == "path escapes root"));
    inp.cwd = Some("rs/../../..".to_string());
    assert!(matches!(exec_plan(&cfg, &inp, None), Err(ApiError::Forbidden(m)) if m == "path escapes root"));
    inp.cwd = Some(" ".to_string());
    assert!(matches!(exec_plan(&cfg, &inp, None), Err(ApiError::BadRequest(m)) if m == "empty path"));
    inp.cwd = Some("a\0".to_string());
    assert!(matches!(exec_plan(&cfg, &inp, None), Err(ApiError::BadRequest(m)) if m == "nul byte"));
}

#[test]
fn exit_code_zero_is_a_success() {
    let cfg = test_cfg();
    let env = exec(&cfg, &call("git", &["status"]), None, exited(Some(0), "clean\n", "warning\n")).unwrap();
    assert_eq!(env.tool, "exec");
    assert!(env.ok);
    assert_eq!(env.exit_code, 0);
    assert_eq!(env.stdout, "clean\n");
    assert_eq!(env.stderr, "");
    assert_eq!(env.timing_ms, 0);
    let expected = object(vec![
        ("cmd", Value::from("git")),
        ("args", Value::Array(vec![Value::from("status")])),
        ("exit_code", Value::from(0)),
    ]);
    assert_eq!(env.artifacts, expected);
}

#[test]
fn another_exit_code_is_kept() {
    let cfg = test_cfg();
    let env = exec(&cfg, &call(" pytest", &["-q", "tests"]), None, exited(Some(3), "1 failed\n", "boom\n")).unwrap();
    assert!(!env.ok);
    assert_eq!(env.exit_code, 3);
    assert_eq!(env.stdout, "");
    assert_eq!(env.stderr, "boom\n");
    let expected = object(vec![
        ("cmd", Value::from("pytest")),
        ("args", Value::Array(vec![Value::from("-q"), Value::from("tests")])),
        ("exit_code", Value::from(3)),
        ("stdout", Value::from("1 failed\n")),
    ]);
    assert_eq!(env.artifacts, expected);
    let env = exec(&cfg, &call("git", &[]), None, exited(Some(-1), "", "")).unwrap();
    assert_eq!(env.exit_code, -1);
    assert_eq!(env.artifacts, object(vec![
        ("cmd", Value::from("git")),
        ("args", Value::Array(vec![])),
        ("exit_code", Value::from(-1)),
        ("stdout", Value::from("")),
    ]));
}

#[test]
fn a_child_without_exit_code_counts_as_one() {
    let cfg = test_cfg();
    let env = exec(&cfg, &call("cargo", &["build"]), None, exited(None, "", "killed")).unwrap();
    assert!(!env.ok);
    assert_eq!(env.exit_code, 1);
    assert_eq!(env.stderr, "killed");
}

#[test]
fn a_child_that_did_not_run_is_a_failure_of_no_class() {
    let cfg = test_cfg();
    let r = exec(&cfg, &call("uv", &[]), None, ExecOutcome::SpawnFailed("No such file or directory (os error 2)".to_string()));
    assert!(matches!(r, Err(ApiError::Other(m)) if m == "No such file or directory (os error 2)"));
    let r = exec(&cfg, &call("uv", &[]), None, ExecOutcome::TimedOut);
    assert!(matches!(r, Err(ApiError::Other(m)) if m == "timeout"));
    let r = exec(&cfg, &call("uv", &[]), None, ExecOutcome::WaitFailed("interrupted".to_string()));
    assert!(matches!(r, Err(ApiError::Other(m)) if m == "interrupted"));
}

#[test]
fn a_refused_command_is_refused_whatever_the_host_reports() {
    let cfg = test_cfg();
    let r = exec(&cfg, &call("bash", &["-c", "id"]), None, exited(Some(0), "uid=0", ""));
    assert!(matches!(r, Err(ApiError::Forbidden(m)) if m == "cmd not allowed: bash"));
}

#[test]
fn finish_run_follows_the_plan() {
    let plan = ExecPlan { cmd: "ruff".to_string(), args: vec!["check".to_string()], cwd: ROOT.to_string(), timeout_s: 1 };
    let env = finish_run(&plan, exited(Some(0), "ok", "")).unwrap();
    assert_eq!(env.artifacts, object(vec![
        ("cmd", Value::from("ruff")),
        ("args", Value::Array(vec![Value::from("check")])),
        ("exit_code", Value::from(0)),
    ]));
}
