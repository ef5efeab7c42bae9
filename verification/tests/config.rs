use runner::config::{allowlists_for_profile, Profile, RunnerConfig};
use runner::rate::{RateLimiter, TOKEN};

fn root() -> String {
    "/srv/project".to_string()
}

fn canonical(path: &str) -> String {
    std::path::Path::new(path).canonicalize().unwrap().to_string_lossy().into_owned()
}

#[test]
fn test_config_new_with_current_dir() {
    let cfg = RunnerConfig::new(canonical("."), Some("dev"), None).unwrap();
    assert!(std::path::Path::new(&cfg.root_dir).is_absolute());
}

#[test]
fn test_config_new_with_tempdir() {
    let cfg = RunnerConfig::new(canonical("/tmp"), Some("dev"), None).unwrap();
    assert!(std::path::Path::new(&cfg.root_dir).is_absolute());
    assert!(std::path::Path::new(&cfg.root_dir).exists());
}

#[test]
fn test_can_read_has_allowlist() {
    let cfg = RunnerConfig::new(root(), Some("dev"), None).unwrap();
    assert!(cfg.can_read("py/src/lg_orch/main.py"));
    assert!(!cfg.can_read(".git/config"));
}

#[test]
fn test_can_write_has_allowlist() {
    let cfg = RunnerConfig::new(root(), Some("dev"), None).unwrap();
    assert!(cfg.can_write("py/src/lg_orch/main.py"));
    assert!(!cfg.can_write("README.md"));
}

#[test]
fn test_root_dir_is_canonical() {
    let cfg = RunnerConfig::new(canonical("/tmp"), Some("dev"), None).unwrap();
    assert_eq!(cfg.root_dir, canonical(&cfg.root_dir));
}

#[test]
fn test_prod_disables_writes() {
    let cfg = RunnerConfig::new(root(), Some("prod"), None).unwrap();
    assert!(!cfg.can_write("py/src/lg_orch/main.py"));
}

#[test]
fn test_rate_limiter_allows_within_limit() {
    let mut rl = RateLimiter::new(10);
    for _ in 0..10 {
        assert!(rl.try_acquire());
    }
}

#[test]
fn test_rate_limiter_denies_over_limit() {
    let mut rl = RateLimiter::new(2);
    assert!(rl.try_acquire());
    assert!(rl.try_acquire());
    assert!(!rl.try_acquire());
}

#[test]
fn test_config_with_custom_rate_limit() {
    let cfg = RunnerConfig::with_rate_limit(canonical("/tmp"), Some("dev"), None, 50).unwrap();
    assert!(std::path::Path::new(&cfg.root_dir).is_absolute());
    assert_eq!(cfg.rate_limit_rps, 50);
}

#[test]
fn test_config_debug_redacts_api_key() {
    let cfg = RunnerConfig::new(root(), Some("dev"), Some("secret-key".to_string())).unwrap();
    let debug_str = cfg.describe();
    assert!(!debug_str.contains("secret-key"));
    assert!(debug_str.contains("[REDACTED]"));
}

#[test]
fn describe_is_exact() {
    let with_key = RunnerConfig::new(root(), None, Some("k".to_string())).unwrap();
    assert_eq!(
        with_key.describe(),
        "RunnerConfig { root_dir: \"/srv/project\", api_key: Some(\"[REDACTED]\"), rate_limiter: \"<RateLimiter>\" }"
    );
    let without = RunnerConfig::new(root(), None, None).unwrap();
    assert_eq!(
        without.describe(),
        "RunnerConfig { root_dir: \"/srv/project\", api_key: None, rate_limiter: \"<RateLimiter>\" }"
    );
}

#[test]
fn new_keeps_what_it_is_given() {
    let cfg = RunnerConfig::new(root(), Some("stage"), Some("k".to_string())).unwrap();
    assert_eq!(cfg.root_dir, "/srv/project");
    assert_eq!(cfg.profile, Profile::Stage);
    assert_eq!(cfg.api_key, Some("k".to_string()));
    assert_eq!(cfg.rate_limit_rps, 100);
}

#[test]
fn profile_names_are_exact() {
    assert_eq!(Profile::parse("dev"), Profile::Dev);
    assert_eq!(Profile::parse("stage"), Profile::Stage);
    assert_eq!(Profile::parse("prod"), Profile::Prod);
    assert_eq!(Profile::parse("Prod"), Profile::Fallback);
    assert_eq!(Profile::parse(" dev"), Profile::Fallback);
    assert_eq!(Profile::parse(""), Profile::Fallback);
    let cfg = RunnerConfig::new(root(), None, None).unwrap();
    assert_eq!(cfg.profile, Profile::Dev);
}

#[test]
fn allowlists_are_those_of_the_profile() {
    let read = vec![
        ".", "README.md", "LICENSE", "py", "py/**", "rs", "rs/**", "docs", "docs/**", "prompts",
        "prompts/**", "schemas", "schemas/**", "configs", "configs/**", "eval", "eval/**",
        "scripts", "scripts/**", ".github/**", ".editorconfig", ".gitignore",
    ];
    let write = vec![
        "py", "py/**", "rs", "rs/**", "docs", "docs/**", "prompts", "prompts/**", "schemas",
        "schemas/**", "configs", "configs/**", "eval", "eval/**", "scripts", "scripts/**",
    ];
    for name in ["dev", "stage", "anything", ""] {
        let (r, w) = allowlists_for_profile(name);
        assert_eq!(r, read);
        assert_eq!(w, write);
    }
    let (r, w) = allowlists_for_profile("prod");
    assert_eq!(r, read);
    assert!(w.is_empty());
}

#[test]
fn prod_rejects_every_write_and_reads_like_dev() {
    let prod = RunnerConfig::new(root(), Some("prod"), None).unwrap();
    let dev = RunnerConfig::new(root(), Some("dev"), None).unwrap();
    for path in ["py", "py/a.py", "rs/src/main.rs", "docs/x.md", ".github/workflows/ci.yml", "README.md", ".", ""] {
        assert!(!prod.can_write(path), "prod writes {}", path);
        assert_eq!(prod.can_read(path), dev.can_read(path), "on {}", path);
    }
}

#[test]
fn dev_accepts_project_trees_and_rejects_vcs_internals() {
    let cfg = RunnerConfig::new(root(), Some("dev"), None).unwrap();
    for path in ["py", "py/a.py", "rs/runner/src/main.rs", "docs/a/b/c.md", "schemas/x.json", "configs/a.toml", "eval/run.py", "scripts/x.sh", "prompts/p.txt"] {
        assert!(cfg.can_read(path), "read {}", path);
        assert!(cfg.can_write(path), "write {}", path);
    }
    for path in ["README.md", "LICENSE", ".editorconfig", ".gitignore", ".", ".github/workflows/ci.yml"] {
        assert!(cfg.can_read(path), "read {}", path);
        assert!(!cfg.can_write(path), "write {}", path);
    }
    for path in [".git/config", ".git/HEAD", ".git", "target/debug/x", "Cargo.toml", "../etc/passwd", "/etc/passwd", ""] {
        assert!(!cfg.can_read(path), "read {}", path);
        assert!(!cfg.can_write(path), "write {}", path);
    }
}

#[test]
fn backslashes_count_as_slashes() {
    let cfg = RunnerConfig::new(root(), Some("dev"), None).unwrap();
    assert!(cfg.can_read("py\\src\\main.py"));
    assert!(cfg.can_write("py\\src\\main.py"));
    assert!(!cfg.can_read(".git\\config"));
}

#[test]
fn bucket_starts_full() {
    let rl = RateLimiter::new(2);
    assert_eq!(rl.available(), 2 * TOKEN);
    assert_eq!(rl.limit(), 2 * TOKEN);
    let empty = RateLimiter::new(0);
    assert_eq!(empty.available(), 0);
    assert_eq!(empty.limit(), 0);
}

#[test]
fn bucket_refills_by_rate_times_time() {
    let mut rl = RateLimiter::new(2);
    assert!(rl.try_acquire_after(0));
    assert_eq!(rl.available(), TOKEN);
    assert!(rl.try_acquire_after(0));
    assert_eq!(rl.available(), 0);
    assert!(!rl.try_acquire_after(0));
    assert_eq!(rl.available(), 0);
    // A quarter of a second at two tokens a second is half a token.
    assert!(!rl.try_acquire_after(250_000_000));
    assert_eq!(rl.available(), 500_000_000);
    assert!(rl.try_acquire_after(250_000_000));
    assert_eq!(rl.available(), 0);
    // The refill stops at the capacity.
    assert!(rl.try_acquire_after(10_000_000_000));
    assert_eq!(rl.available(), TOKEN);
    assert!(rl.try_acquire_after(u128::MAX));
    assert_eq!(rl.available(), TOKEN);
}

#[test]
fn an_attempt_at_a_reading_counts_the_time_it_is_given() {
    let mut rl = RateLimiter::new(1);
    let now = std::time::Instant::now();
    assert!(rl.try_acquire_at(now, 0));
    assert!(!rl.try_acquire_at(now, 999_999_999));
    assert_eq!(rl.available(), 999_999_999);
    assert!(rl.try_acquire_at(now, 1));
    assert_eq!(rl.available(), 0);
}

#[test]
fn the_clock_is_read_anew_at_each_attempt() {
    let mut rl = RateLimiter::new(1_000_000_000);
    let mut admitted = 0u64;
    // Each nanosecond gains a token: were the time of the last attempt not
    // noted, the time since the start would be counted again and again.
    for _ in 0..2000 {
        if rl.try_acquire() {
            admitted += 1;
        }
        assert!(rl.available() <= rl.limit());
    }
    assert!(admitted >= 1);
}

#[test]
fn bucket_of_rate_zero_admits_nothing() {
    let mut rl = RateLimiter::new(0);
    assert!(!rl.try_acquire_after(0));
    assert!(!rl.try_acquire_after(u128::MAX));
    assert!(!rl.try_acquire());
    assert_eq!(rl.available(), 0);
}

#[test]
fn bucket_stays_within_its_bounds() {
    let mut rl = RateLimiter::new(3);
    let gaps: [u128; 8] = [0, 1, 999_999_999, 333_333_333, 0, 5_000_000_000, 7, u128::MAX];
    for gap in gaps {
        rl.try_acquire_after(gap);
        assert!(rl.available() <= rl.limit());
        assert_eq!(rl.limit(), 3 * TOKEN);
    }
    let mut big = RateLimiter::new(u64::MAX);
    assert!(big.try_acquire_after(u128::MAX));
    assert_eq!(big.available(), (u64::MAX as u128) * TOKEN - TOKEN);
}
