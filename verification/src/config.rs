//! The configuration a gateway runs with: its root directory, the
//! permission profile compiled into two glob sets, and the API key.

use vstd::prelude::*;
use vstd::string::StringExecFns;
use globset::GlobSet;
use crate::errors::{ApiError, Failure};
use crate::globs::{
    build_globset, compile_failure, glob_error_display, glob_error_text, matches_any,
    set_is_match, set_patterns, strs,
};
use crate::text::{slash_form, to_slash_form};

verus! {

/// The deployment profiles. A name that is none of `dev`, `stage` and `prod`
/// selects the default.
#[derive(Clone, Copy, Debug, PartialEq, Eq, Structural)]
pub enum Profile {
    Dev,
    Stage,
    Prod,
    Fallback,
}

/// The profile a name selects.
pub open spec fn profile_of(name: Seq<char>) -> Profile {
    if name == "dev"@ {
        Profile::Dev
    } else if name == "stage"@ {
        Profile::Stage
    } else if name == "prod"@ {
        Profile::Prod
    } else {
        Profile::Fallback
    }
}

/// The patterns every profile may read: the project's source, docs, schema,
/// config and automation trees, and a few files at the root.
pub open spec fn read_globs() -> Seq<Seq<char>> {
    seq![
        "."@,
        "README.md"@,
        "LICENSE"@,
        "py"@,
        "py/**"@,
        "rs"@,
        "rs/**"@,
        "docs"@,
        "docs/**"@,
        "prompts"@,
        "prompts/**"@,
        "schemas"@,
        "schemas/**"@,
        "configs"@,
        "configs/**"@,
        "eval"@,
        "eval/**"@,
        "scripts"@,
        "scripts/**"@,
        ".github/**"@,
        ".editorconfig"@,
        ".gitignore"@,
    ]
}

/// The patterns a profile may write: the project trees without the files at
/// the root and without `.github`, and nothing at all in `prod`.
pub open spec fn write_globs(profile: Profile) -> Seq<Seq<char>> {
    if profile == Profile::Prod {
        Seq::empty()
    } else {
        seq![
            "py"@,
            "py/**"@,
            "rs"@,
            "rs/**"@,
            "docs"@,
            "docs/**"@,
            "prompts"@,
            "prompts/**"@,
            "schemas"@,
            "schemas/**"@,
            "configs"@,
            "configs/**"@,
            "eval"@,
            "eval/**"@,
            "scripts"@,
            "scripts/**"@,
        ]
    }
}

/// A failure of no class with the given text, if there is a text.
pub open spec fn failure_of(text: Option<Seq<char>>) -> Option<Failure> {
    match text {
        Some(text) => Some(Failure::Other(text)),
        None => None,
    }
}

/// The profile of an optional name: `dev` where there is none.
pub open spec fn named_profile(name: Option<&str>) -> Profile {
    match name {
        Some(name) => profile_of(name@),
        None => Profile::Dev,
    }
}

/// Why no configuration can be made for a profile: the failure of compiling
/// its read patterns, else that of compiling its write patterns; nothing
/// where both compile.
pub open spec fn config_failure(profile: Profile) -> Option<Seq<char>> {
    match compile_failure(read_globs()) {
        Some(text) => Some(text),
        None => compile_failure(write_globs(profile)),
    }
}

impl Profile {
    /// The profile a name selects.
    pub fn parse(name: &str) -> (profile: Profile)
        ensures
            profile == profile_of(name@),
    {
        if name.eq("dev") {
            Profile::Dev
        } else if name.eq("stage") {
            Profile::Stage
        } else if name.eq("prod") {
            Profile::Prod
        } else {
            Profile::Fallback
        }
    }
}

fn read_allowlist() -> (globs: Vec<&'static str>)
    ensures
        strs(globs@) == read_globs(),
{
    let globs = vec![
        ".",
        "README.md",
        "LICENSE",
        "py",
        "py/**",
        "rs",
        "rs/**",
        "docs",
        "docs/**",
        "prompts",
        "prompts/**",
        "schemas",
        "schemas/**",
        "configs",
        "configs/**",
        "eval",
        "eval/**",
        "scripts",
        "scripts/**",
        ".github/**",
        ".editorconfig",
        ".gitignore",
    ];
    globs
}

fn write_allowlist() -> (globs: Vec<&'static str>)
    ensures
        strs(globs@) == write_globs(Profile::Dev),
{
    let globs = vec![
        "py",
        "py/**",
        "rs",
        "rs/**",
        "docs",
        "docs/**",
        "prompts",
        "prompts/**",
        "schemas",
        "schemas/**",
        "configs",
        "configs/**",
        "eval",
        "eval/**",
        "scripts",
        "scripts/**",
    ];
    globs
}

/// The read and write allow-lists of the profile that `profile` names.
pub fn allowlists_for_profile(profile: &str) -> (lists: (Vec<&'static str>, Vec<&'static str>))
    ensures
        strs(lists.0@) == read_globs(),
        strs(lists.1@) == write_globs(profile_of(profile@)),
{
    match Profile::parse(profile) {
        Profile::Prod => {
            let none: Vec<&'static str> = Vec::new();
            (read_allowlist(), none)
        },
        _ => (read_allowlist(), write_allowlist()),
    }
}

/// The immutable configuration of a gateway.
pub struct RunnerConfig {
    /// The canonical absolute path all operations are confined to.
    pub root_dir: String,
    /// The profile the two sets were compiled for.
    pub profile: Profile,
    pub allow_read: GlobSet,
    pub allow_write: GlobSet,
    pub api_key: Option<String>,
    /// Requests admitted per second.
    pub rate_limit_rps: u64,
}

/// How a configuration describes itself: the key is never part of it, only
/// whether there is one.
pub open spec fn describe_text(root_dir: Seq<char>, has_key: bool) -> Seq<char> {
    "RunnerConfig { root_dir: \""@ + root_dir + "\", api_key: "@ + (if has_key {
        "Some(\"[REDACTED]\")"@
    } else {
        "None"@
    }) + ", rate_limiter: \"<RateLimiter>\" }"@
}

impl RunnerConfig {
    /// The two sets are those of the configuration's profile.
    pub open spec fn wf(&self) -> bool {
        &&& set_patterns(self.allow_read) == read_globs()
        &&& set_patterns(self.allow_write) == write_globs(self.profile)
    }

    /// Whether the profile lets the path be read.
    pub open spec fn may_read(&self, rel: Seq<char>) -> bool {
        matches_any(set_patterns(self.allow_read), slash_form(rel))
    }

    /// Whether the profile lets the path be written.
    pub open spec fn may_write(&self, rel: Seq<char>) -> bool {
        matches_any(set_patterns(self.allow_write), slash_form(rel))
    }

    /// A configuration admitting 100 requests per second.
    pub fn new(root_dir: String, profile: Option<&str>, api_key: Option<String>) -> (r: Result<
        RunnerConfig,
        ApiError,
    >)
        ensures
            r is Ok <==> config_failure(named_profile(profile)) is None,
            r matches Ok(cfg) ==> cfg.wf() && cfg.root_dir == root_dir && cfg.api_key == api_key
                && cfg.rate_limit_rps == 100 && cfg.profile == named_profile(profile),
            r matches Err(e) ==> Some(e@) == failure_of(config_failure(named_profile(profile))),
    {
        RunnerConfig::with_rate_limit(root_dir, profile, api_key, 100)
    }

    /// The configuration for a canonical root directory, a profile name
    /// (`dev` where none is given), an optional key and a rate limit.
    /// It fails only where a set of patterns does not compile, with the
    /// text of that failure.
    pub fn with_rate_limit(
        root_dir: String,
        profile: Option<&str>,
        api_key: Option<String>,
        rate_limit_rps: u64,
    ) -> (r: Result<RunnerConfig, ApiError>)
        ensures
            r is Ok <==> config_failure(named_profile(profile)) is None,
            r matches Ok(cfg) ==> cfg.wf() && cfg.root_dir == root_dir && cfg.api_key == api_key
                && cfg.rate_limit_rps == rate_limit_rps && cfg.profile == named_profile(profile),
            r matches Err(e) ==> Some(e@) == failure_of(config_failure(named_profile(profile))),
    {
        let name = match profile {
            Some(name) => name,
            None => "dev",
        };
        let (read_globs, write_globs) = allowlists_for_profile(name);
        let read = build_globset(read_globs.as_slice());
        let write = build_globset(write_globs.as_slice());
        RunnerConfig::assemble(root_dir, Profile::parse(name), api_key, rate_limit_rps, read, write)
    }

    /// The configuration made of two compiled sets, or the failure of the
    /// first that did not compile.
    pub fn assemble(
        root_dir: String,
        profile: Profile,
        api_key: Option<String>,
        rate_limit_rps: u64,
        read: Result<GlobSet, globset::Error>,
        write: Result<GlobSet, globset::Error>,
    ) -> (r: Result<RunnerConfig, ApiError>)
        ensures
            r is Ok <==> read is Ok && write is Ok,
            r matches Ok(cfg) ==> cfg.root_dir == root_dir && cfg.profile == profile
                && cfg.allow_read == read->Ok_0 && cfg.allow_write == write->Ok_0 && cfg.api_key
                == api_key && cfg.rate_limit_rps == rate_limit_rps,
            r matches Err(e) ==> e@ == Failure::Other(
                glob_error_display(
                    if read is Err {
                        read->Err_0
                    } else {
                        write->Err_0
                    },
                ),
            ),
    {
        let allow_read = match read {
            Ok(set) => set,
            Err(e) => {
                return Err(ApiError::Other(glob_error_text(&e)));
            },
        };
        let allow_write = match write {
            Ok(set) => set,
            Err(e) => {
                return Err(ApiError::Other(glob_error_text(&e)));
            },
        };
        Ok(RunnerConfig { root_dir, profile, allow_read, allow_write, api_key, rate_limit_rps })
    }

    /// Whether the profile lets the path be read. Backslashes count as
    /// forward slashes.
    pub fn can_read(&self, rel: &str) -> (allowed: bool)
        ensures
            allowed == self.may_read(rel@),
    {
        let rel = to_slash_form(rel);
        set_is_match(&self.allow_read, rel.as_str())
    }

    /// Whether the profile lets the path be written. Backslashes count as
    /// forward slashes.
    pub fn can_write(&self, rel: &str) -> (allowed: bool)
        ensures
            allowed == self.may_write(rel@),
    {
        let rel = to_slash_form(rel);
        set_is_match(&self.allow_write, rel.as_str())
    }

    /// A description for logs, which never shows the key.
    pub fn describe(&self) -> (text: String)
        ensures
            text@ == describe_text(self.root_dir@, self.api_key is Some),
    {
        let mut text = "RunnerConfig { root_dir: \"".to_owned();
        text.append(self.root_dir.as_str());
        text.append("\", api_key: ");
        match &self.api_key {
            Some(_) => text.append("Some(\"[REDACTED]\")"),
            None => text.append("None"),
        }
        text.append(", rate_limiter: \"<RateLimiter>\" }");
        text
    }
}

/// In `prod` nothing can be written: the write set of a well-formed `prod`
/// configuration rejects every path.
pub proof fn lemma_prod_rejects_every_write(cfg: RunnerConfig, rel: Seq<char>)
    requires
        cfg.wf(),
        cfg.profile == Profile::Prod,
    ensures
        !cfg.may_write(rel),
{
}

/// What may be written may be read as well, in a well-formed configuration:
/// every write pattern is a read pattern.
pub proof fn lemma_write_implies_read(cfg: RunnerConfig, rel: Seq<char>)
    requires
        cfg.wf(),
        cfg.may_write(rel),
    ensures
        cfg.may_read(rel),
{
}

} // verus!
