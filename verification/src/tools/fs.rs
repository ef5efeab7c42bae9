//! The path resolver and the file tools: read, list, search and patch.
//!
//! Each tool is a function of the configuration, the call's input and what
//! the host observed of the file system. The host asks `read_target` or
//! `patch_target` for the path it may touch and touches no other.

use vstd::prelude::*;
use crate::config::RunnerConfig;
use crate::envelope::{ok_view, outcome_view, EnvelopeView, ToolEnvelope};
use crate::errors::{ApiError, Failure};
use crate::globs::{
    build_globset, compile_failure, glob_error_text, glob_matches, set_is_match,
    set_patterns,
};
use crate::json::{
    compact_text, json_insert, json_list, json_map, json_model, json_object, json_object1,
    json_object2, json_text, json_unsigned, models, object1, object2, pretty_text, to_compact_text,
    to_pretty_text, JsonModel,
};
use crate::patterns::{
    compile_regex, regex_error_text, regex_failure, regex_is_match, regex_matches, regex_source,
};
use crate::paths::{
    climbs, fold, folded_path, has_climb, is_absolute, join, path_is_absolute, path_join,
    path_starts_with, relative, relative_to, starts_with,
};
use crate::text::{
    ascending, drop_repeats, has_nul, in_order, lemma_ascending_is_in_order,
    lemma_without_repeats, lines, lines_of, option_text, sort_texts, strictly_ascending, texts,
    trim, trimmed, without_repeats,
};
use globset::GlobSet;
use regex::Regex;
use serde_json::Value;
use vstd::string::StringExecFns;
use vstd::utf8::encode_utf8;

verus! {

/// Whether a path lies under a root as it is written: it is absolute, none
/// of its components is `..`, and it has the root as a prefix, component by
/// component.
pub open spec fn contained(path: Seq<char>, root: Seq<char>) -> bool {
    path_is_absolute(path) && !climbs(path) && path_starts_with(path, root)
}

/// Whether a path lies under a root as it is written.
pub fn is_contained(path: &str, root: &str) -> (under: bool)
    ensures
        under == contained(path@, root@),
{
    is_absolute(path) && !has_climb(path) && starts_with(path, root)
}

/// An absolute path that was checked to lie under a root directory.
pub struct ResolvedPath {
    root: String,
    path: String,
}

impl View for ResolvedPath {
    type V = Seq<char>;

    closed spec fn view(&self) -> Seq<char> {
        self.path@
    }
}

impl ResolvedPath {
    #[verifier::type_invariant]
    spec fn checked(&self) -> bool {
        contained(self.path@, self.root@)
    }

    /// The root the path was checked against.
    pub closed spec fn root(&self) -> Seq<char> {
        self.root@
    }

    /// The path. It is absolute, has no `..` in it and has the root as a
    /// prefix.
    pub fn as_str(&self) -> (path: &str)
        ensures
            path@ == self@,
            contained(self@, self.root()),
    {
        proof {
            use_type_invariant(self);
        }
        self.path.as_str()
    }

    /// The root the path was checked against.
    pub fn root_dir(&self) -> (root: &str)
        ensures
            root@ == self.root(),
    {
        self.root.as_str()
    }
}

/// The path the host is to canonicalize for `rel`: `rel` joined onto the
/// root, in lexically normal form.
pub open spec fn candidate_of(root: Seq<char>, rel: Seq<char>) -> Seq<char> {
    let norm = crate::paths::normalized(path_join(root, trimmed(rel)));
    if crate::paths::path_is_absolute(norm) {
        norm
    } else {
        path_join(root, norm)
    }
}

/// Whether a relative path can be resolved at all: it is neither empty nor
/// holds a NUL.
pub open spec fn usable(rel: Seq<char>) -> bool {
    trimmed(rel).len() > 0 && !trimmed(rel).contains('\0')
}

/// Why a relative path cannot be resolved.
pub open spec fn unusable_reason(rel: Seq<char>) -> Failure {
    if trimmed(rel).len() == 0 {
        Failure::BadRequest("empty path"@)
    } else {
        Failure::BadRequest("nul byte"@)
    }
}

/// The path that is checked against the root: the canonical form where the
/// host found one, else `rel` joined onto the root, with `.` and `..`
/// folded.
pub open spec fn effective_path(
    root: Seq<char>,
    rel: Seq<char>,
    canonical: Option<Seq<char>>,
) -> Seq<char> {
    match canonical {
        Some(c) => c,
        None => folded_path(path_join(root, trimmed(rel))),
    }
}

/// The resolution of `rel` under `root`, where `canonical` is the canonical
/// form of its candidate as the host found it, if it found one.
pub open spec fn resolved(root: Seq<char>, rel: Seq<char>, canonical: Option<Seq<char>>) -> Result<
    Seq<char>,
    Failure,
> {
    if !usable(rel) {
        Err(unusable_reason(rel))
    } else if !contained(effective_path(root, rel, canonical), root) {
        Err(Failure::Forbidden("path escapes root"@))
    } else {
        Ok(effective_path(root, rel, canonical))
    }
}

/// What a resolution holds.
pub open spec fn resolution_view(r: Result<ResolvedPath, ApiError>) -> Result<Seq<char>, Failure> {
    match r {
        Ok(p) => Ok(p@),
        Err(e) => Err(e@),
    }
}

/// The trimmed path, or the reason why the path cannot be resolved.
pub fn usable_path(rel: &str) -> (r: Result<String, ApiError>)
    ensures
        match r {
            Ok(path) => usable(rel@) && path@ == trimmed(rel@),
            Err(e) => !usable(rel@) && e@ == unusable_reason(rel@),
        },
{
    let rel = trim(rel);
    if rel.as_str().is_empty() {
        return Err(ApiError::bad_request("empty path"));
    }
    if has_nul(rel.as_str()) {
        return Err(ApiError::bad_request("nul byte"));
    }
    Ok(rel)
}

/// The path the host is to canonicalize before it asks for the resolution
/// of `rel`, or the reason why `rel` cannot be resolved. A `..` in it is
/// left to the canonicalization, which knows where links lead.
pub fn resolve_candidate(cfg: &RunnerConfig, rel: &str) -> (r: Result<String, ApiError>)
    ensures
        match r {
            Ok(p) => usable(rel@) && p@ == candidate_of(cfg.root_dir@, rel@),
            Err(e) => !usable(rel@) && e@ == unusable_reason(rel@),
        },
{
    let rel = match usable_path(rel) {
        Ok(rel) => rel,
        Err(e) => {
            return Err(e);
        },
    };
    let candidate = join(cfg.root_dir.as_str(), rel.as_str());
    let norm = crate::paths::normalize(candidate.as_str());
    if crate::paths::is_absolute(norm.as_str()) {
        Ok(norm)
    } else {
        Ok(join(cfg.root_dir.as_str(), norm.as_str()))
    }
}

/// Resolves a caller-supplied relative path to a path under the root.
/// `canonical` is what canonicalizing `resolve_candidate(cfg, rel)` gave,
/// `None` where the target does not exist yet. The path that is handed out
/// is absolute, has no `..` in it and has the root as a prefix; anything
/// else is refused.
pub fn resolve_under_root(cfg: &RunnerConfig, rel: &str, canonical: Option<String>) -> (r: Result<
    ResolvedPath,
    ApiError,
>)
    ensures
        resolution_view(r) == resolved(cfg.root_dir@, rel@, option_text(canonical)),
        r matches Ok(p) ==> p.root() == cfg.root_dir@ && contained(p@, cfg.root_dir@),
{
    let rel = match usable_path(rel) {
        Ok(rel) => rel,
        Err(e) => {
            return Err(e);
        },
    };
    let full = match canonical {
        Some(c) => c,
        None => fold(join(cfg.root_dir.as_str(), rel.as_str()).as_str()),
    };
    if !is_contained(full.as_str(), cfg.root_dir.as_str()) {
        return Err(ApiError::forbidden("path escapes root"));
    }
    Ok(ResolvedPath { root: cfg.root_dir.clone(), path: full })
}

/// A path whose effective form climbs or is not absolute is refused as
/// well: what is handed out can be taken as it is written.
pub proof fn lemma_climb_is_forbidden(root: Seq<char>, rel: Seq<char>, canonical: Option<Seq<char>>)
    requires
        usable(rel),
        climbs(effective_path(root, rel, canonical)) || !path_is_absolute(
            effective_path(root, rel, canonical),
        ),
    ensures
        resolved(root, rel, canonical) == Err::<Seq<char>, Failure>(
            Failure::Forbidden("path escapes root"@),
        ),
{
}

/// A path whose effective form does not have the root as a prefix is
/// refused, whatever else holds of it.
pub proof fn lemma_escape_is_forbidden(
    root: Seq<char>,
    rel: Seq<char>,
    canonical: Option<Seq<char>>,
)
    requires
        usable(rel),
        !path_starts_with(effective_path(root, rel, canonical), root),
    ensures
        resolved(root, rel, canonical) == Err::<Seq<char>, Failure>(
            Failure::Forbidden("path escapes root"@),
        ),
{
}

/// Every path that resolution hands out is absolute, has no `..` in it and
/// has the root as a prefix.
pub proof fn lemma_resolved_is_contained(
    root: Seq<char>,
    rel: Seq<char>,
    canonical: Option<Seq<char>>,
)
    ensures
        resolved(root, rel, canonical) matches Ok(p) ==> path_is_absolute(p) && !climbs(p)
            && path_starts_with(p, root),
{
}

/// The text of what the host read, or of the failure it met.
pub open spec fn read_view(r: Result<String, String>) -> Result<Seq<char>, Seq<char>> {
    match r {
        Ok(text) => Ok(text@),
        Err(e) => Err(e@),
    }
}

/// The path under which the profile is asked about a resolved path: its
/// root-relative form, and `.` for the root itself.
pub open spec fn subject_of(full: Seq<char>, root: Seq<char>) -> Seq<char> {
    if relative_to(full, root).len() == 0 {
        "."@
    } else {
        relative_to(full, root)
    }
}

/// The path under which the profile is asked about a resolved path.
pub fn subject(full: &ResolvedPath) -> (rel: String)
    ensures
        rel@ == subject_of(full@, full.root()),
{
    let rel = relative(full.as_str(), full.root_dir());
    if rel.as_str().is_empty() {
        ".".to_owned()
    } else {
        rel
    }
}

/// The path a read-only tool may touch for `path`: the profile must let
/// `path` be read as it was given, it must resolve under the root, and the
/// profile must let what it resolves to be read as well.
pub open spec fn read_target_of(
    cfg: RunnerConfig,
    path: Seq<char>,
    canonical: Option<Seq<char>>,
) -> Result<Seq<char>, Failure> {
    if !cfg.may_read(path) {
        Err(Failure::Forbidden("read denied"@))
    } else {
        match resolved(cfg.root_dir@, path, canonical) {
            Err(e) => Err(e),
            Ok(full) => if !cfg.may_read(subject_of(full, cfg.root_dir@)) {
                Err(Failure::Forbidden("read denied"@))
            } else {
                Ok(full)
            },
        }
    }
}

/// The path a read-only tool may touch for `path`, or why it may touch none.
pub fn read_target(cfg: &RunnerConfig, path: &str, canonical: Option<String>) -> (r: Result<
    ResolvedPath,
    ApiError,
>)
    ensures
        resolution_view(r) == read_target_of(*cfg, path@, option_text(canonical)),
        r matches Ok(p) ==> p.root() == cfg.root_dir@ && contained(p@, cfg.root_dir@)
            && cfg.may_read(subject_of(p@, cfg.root_dir@)),
{
    if !cfg.can_read(path) {
        return Err(ApiError::forbidden("read denied"));
    }
    let full = match resolve_under_root(cfg, path, canonical) {
        Ok(full) => full,
        Err(e) => {
            return Err(e);
        },
    };
    if !cfg.can_read(subject(&full).as_str()) {
        return Err(ApiError::forbidden("read denied"));
    }
    Ok(full)
}

/// The input of `read_file`.
#[derive(Debug)]
pub struct ReadFileIn {
    pub path: String,
}

/// What `read_file` answers: the whole text of the file, or the refusal, or
/// the failure of the read as a bad request.
pub open spec fn read_file_outcome(
    cfg: RunnerConfig,
    path: Seq<char>,
    canonical: Option<Seq<char>>,
    content: Result<Seq<char>, Seq<char>>,
) -> Result<EnvelopeView, Failure> {
    match read_target_of(cfg, path, canonical) {
        Err(e) => Err(e),
        Ok(_) => match content {
            Err(e) => Err(Failure::BadRequest(e)),
            Ok(text) => Ok(
                ok_view("read_file"@, text, object1("path"@, JsonModel::Text(path)), 0),
            ),
        },
    }
}

/// Reads a file as text. `canonical` is the canonical form of the target's
/// candidate path; `content` is what reading the target as text gave, and
/// is looked at only where the target may be read.
pub fn read_file(
    cfg: &RunnerConfig,
    inp: &ReadFileIn,
    canonical: Option<String>,
    content: Result<String, String>,
) -> (r: Result<ToolEnvelope, ApiError>)
    ensures
        outcome_view(r) == read_file_outcome(
            *cfg,
            inp.path@,
            option_text(canonical),
            read_view(content),
        ),
{
    match read_target(cfg, inp.path.as_str(), canonical) {
        Err(e) => Err(e),
        Ok(_) => match content {
            Err(e) => Err(ApiError::BadRequest(e)),
            Ok(text) => Ok(
                ToolEnvelope::ok(
                    "read_file",
                    text,
                    json_object1("path", json_text(inp.path.as_str())),
                    0,
                ),
            ),
        },
    }
}

/// The input of `list_files`.
#[derive(Debug)]
pub struct ListFilesIn {
    pub path: String,
    pub recursive: bool,
}

/// An entry the host met in a directory or on a walk: its path, and whether
/// it is a regular file.
#[derive(Debug)]
pub struct DirEntry {
    pub path: String,
    pub is_file: bool,
}

/// The root-relative paths a listing keeps, in the order of the entries: a
/// recursive listing keeps regular files only, and either kind keeps only
/// what lies under the root as it is written and what the profile lets be
/// read.
pub open spec fn listed(cfg: RunnerConfig, recursive: bool, entries: Seq<DirEntry>) -> Seq<
    Seq<char>,
>
    decreases entries.len(),
{
    if entries.len() == 0 {
        Seq::empty()
    } else {
        let before = listed(cfg, recursive, entries.drop_last());
        let entry = entries.last();
        let rel = relative_to(entry.path@, cfg.root_dir@);
        if (!recursive || entry.is_file) && contained(entry.path@, cfg.root_dir@) && cfg.may_read(
            rel,
        ) {
            before.push(rel)
        } else {
            before
        }
    }
}

/// What the host found in the directory, or the failure it met.
pub open spec fn listing_view(r: Result<Vec<DirEntry>, String>) -> Result<
    Seq<DirEntry>,
    Seq<char>,
> {
    match r {
        Ok(entries) => Ok(entries@),
        Err(e) => Err(e@),
    }
}

/// The paths of a listing: those that are kept, each once, in ascending
/// order.
pub open spec fn listing_of(cfg: RunnerConfig, recursive: bool, entries: Seq<DirEntry>) -> Seq<
    Seq<char>,
> {
    without_repeats(in_order(listed(cfg, recursive, entries)))
}

/// The envelope of a listing of `names`.
pub open spec fn listing_envelope(names: Seq<Seq<char>>) -> EnvelopeView {
    ok_view(
        "list_files"@,
        compact_text(names),
        object1("count"@, JsonModel::Number(names.len() as int)),
        0,
    )
}

/// What `list_files` answers: the refusal, or the failure of the listing
/// as a bad request, or the kept paths, each once and in ascending order,
/// as JSON text, with their number.
pub open spec fn list_files_outcome(
    cfg: RunnerConfig,
    path: Seq<char>,
    recursive: bool,
    canonical: Option<Seq<char>>,
    listing: Result<Seq<DirEntry>, Seq<char>>,
) -> Result<EnvelopeView, Failure> {
    match read_target_of(cfg, path, canonical) {
        Err(e) => Err(e),
        Ok(_) => match listing {
            Err(e) => Err(Failure::BadRequest(e)),
            Ok(entries) => Ok(listing_envelope(listing_of(cfg, recursive, entries))),
        },
    }
}

/// A listing holds exactly the kept paths, each once, in ascending order.
pub proof fn lemma_listing_is_strict(cfg: RunnerConfig, recursive: bool, entries: Seq<DirEntry>)
    ensures
        strictly_ascending(listing_of(cfg, recursive, entries)),
        forall|x: Seq<char>|
            listing_of(cfg, recursive, entries).contains(x) <==> listed(
                cfg,
                recursive,
                entries,
            ).contains(x),
{
    let kept = listed(cfg, recursive, entries);
    crate::text::lemma_text_order_is_total();
    kept.lemma_sort_by_ensures(crate::text::text_order());
    let sorted = in_order(kept);
    assert(ascending(sorted)) by {
        assert forall|i: int, j: int| 0 <= i <= j < sorted.len() implies crate::text::text_le(
            sorted[i],
            sorted[j],
        ) by {
            if i == j {
                crate::text::lemma_text_le_reflexive(sorted[i]);
            } else {
                assert(crate::text::text_order()(sorted[i], sorted[j]));
            }
        }
    }
    lemma_without_repeats(sorted);
    assert forall|x: Seq<char>| sorted.contains(x) <==> kept.contains(x) by {
        broadcast use vstd::seq_lib::group_to_multiset_ensures;
        assert(sorted.to_multiset().count(x) == kept.to_multiset().count(x));
    }
}

/// Lists a directory. `canonical` is the canonical form of the directory's
/// candidate path; `listing` is what the host found there (on a recursive
/// call: on the walk below it, skipping what it could not visit), and is
/// looked at only where the directory may be read.
pub fn list_files(
    cfg: &RunnerConfig,
    inp: &ListFilesIn,
    canonical: Option<String>,
    listing: Result<Vec<DirEntry>, String>,
) -> (r: Result<ToolEnvelope, ApiError>)
    ensures
        outcome_view(r) == list_files_outcome(
            *cfg,
            inp.path@,
            inp.recursive,
            option_text(canonical),
            listing_view(listing),
        ),
{
    match read_target(cfg, inp.path.as_str(), canonical) {
        Err(e) => Err(e),
        Ok(_) => match listing {
            Err(e) => Err(ApiError::BadRequest(e)),
            Ok(entries) => {
                let mut out: Vec<String> = Vec::new();
                let mut i: usize = 0;
                while i < entries.len()
                    invariant
                        i <= entries.len(),
                        texts(out@) == listed(*cfg, inp.recursive, entries@.take(i as int)),
                    decreases entries.len() - i,
                {
                    let entry = &entries[i];
                    assert(entries@.take(i + 1).drop_last() =~= entries@.take(i as int));
                    if (!inp.recursive || entry.is_file) && is_contained(
                        entry.path.as_str(),
                        cfg.root_dir.as_str(),
                    ) {
                        let rel = relative(entry.path.as_str(), cfg.root_dir.as_str());
                        if cfg.can_read(rel.as_str()) {
                            out.push(rel);
                        }
                    }
                    i = i + 1;
                }
                assert(entries@.take(i as int) =~= entries@);
                let ghost kept = texts(out@);
                sort_texts(&mut out);
                proof {
                    lemma_ascending_is_in_order(texts(out@), kept);
                }
                let out = drop_repeats(&out);
                let count = out.len();
                let env = ToolEnvelope::ok(
                    "list_files",
                    to_compact_text(&out),
                    json_object1("count", json_unsigned(count as u64)),
                    0,
                );
                Ok(env)
            },
        },
    }
}

/// The input of `search_files`.
#[derive(Debug)]
pub struct SearchFilesIn {
    pub path: String,
    pub regex: String,
    pub file_pattern: Option<String>,
}

/// A regular file the host met on the walk: its path, and its text where
/// the host read it and it is text.
#[derive(Debug)]
pub struct FileText {
    pub path: String,
    pub content: Option<String>,
}

/// A line that matches: its number, counted from 1, and its text.
#[derive(Debug)]
pub struct LineMatch {
    pub line_number: usize,
    pub content: String,
}

/// A file with the lines of it that match.
#[derive(Debug)]
pub struct FileMatches {
    pub file: String,
    pub matches: Vec<LineMatch>,
}

/// What a `LineMatch` holds.
pub struct Hit {
    pub line_number: nat,
    pub content: Seq<char>,
}

/// What a `FileMatches` holds.
pub struct FileHits {
    pub file: Seq<char>,
    pub hits: Seq<Hit>,
}

impl View for LineMatch {
    type V = Hit;

    open spec fn view(&self) -> Hit {
        Hit { line_number: self.line_number as nat, content: self.content@ }
    }
}

/// What a list of line matches holds.
pub open spec fn hit_views(matches: Seq<LineMatch>) -> Seq<Hit> {
    matches.map_values(|m: LineMatch| m@)
}

impl View for FileMatches {
    type V = FileHits;

    open spec fn view(&self) -> FileHits {
        FileHits { file: self.file@, hits: hit_views(self.matches@) }
    }
}

/// What a list of file matches holds.
pub open spec fn found_views(found: Seq<FileMatches>) -> Seq<FileHits> {
    found.map_values(|f: FileMatches| f@)
}

/// The lines that the pattern matches, each with its number counted from 1.
pub open spec fn hits_in(pattern: Seq<char>, lines: Seq<Seq<char>>) -> Seq<Hit>
    decreases lines.len(),
{
    if lines.len() == 0 {
        Seq::empty()
    } else {
        let before = hits_in(pattern, lines.drop_last());
        if regex_matches(pattern, lines.last()) {
            before.push(Hit { line_number: lines.len(), content: lines.last() })
        } else {
            before
        }
    }
}

/// Whether a search looks into the file at `path`: the path must lie under
/// the root as it is written, the profile must let its root-relative form
/// be read, and the file pattern, if there is one, must match that form.
pub open spec fn selected(cfg: RunnerConfig, filter: Option<Seq<char>>, path: Seq<char>) -> bool {
    let rel = relative_to(path, cfg.root_dir@);
    contained(path, cfg.root_dir@) && cfg.may_read(rel) && match filter {
        Some(pattern) => glob_matches(pattern, rel),
        None => true,
    }
}

/// The files with at least one matching line, in the order of the walk,
/// each under its root-relative path.
pub open spec fn found_in(
    cfg: RunnerConfig,
    pattern: Seq<char>,
    filter: Option<Seq<char>>,
    files: Seq<FileText>,
) -> Seq<FileHits>
    decreases files.len(),
{
    if files.len() == 0 {
        Seq::empty()
    } else {
        let before = found_in(cfg, pattern, filter, files.drop_last());
        let file = files.last();
        match file.content {
            Some(text) if selected(cfg, filter, file.path@) && hits_in(
                pattern,
                lines_of(text@),
            ).len() > 0 => before.push(
                FileHits {
                    file: relative_to(file.path@, cfg.root_dir@),
                    hits: hits_in(pattern, lines_of(text@)),
                },
            ),
            _ => before,
        }
    }
}

/// The JSON form of a matching line.
pub open spec fn hit_json(hit: Hit) -> JsonModel {
    object2(
        "line_number"@,
        JsonModel::Number(hit.line_number as int),
        "content"@,
        JsonModel::Text(hit.content),
    )
}

/// The JSON form of a file with its matching lines.
pub open spec fn file_json(file: FileHits) -> JsonModel {
    object2(
        "file"@,
        JsonModel::Text(file.file),
        "matches"@,
        JsonModel::List(file.hits.map_values(|h: Hit| hit_json(h))),
    )
}

/// The envelope of a search that found `found`.
pub open spec fn search_envelope(found: Seq<FileHits>) -> EnvelopeView {
    ok_view(
        "search_files"@,
        pretty_text(found.map_values(|f: FileHits| file_json(f))),
        object1("files_matched"@, JsonModel::Number(found.len() as int)),
        0,
    )
}

/// Why a search cannot be prepared: the regex is not valid, or else the
/// file pattern does not compile; nothing where it can.
pub open spec fn search_failure(pattern: Seq<char>, filter: Option<Seq<char>>) -> Option<Failure> {
    match regex_failure(pattern) {
        Some(text) => Some(Failure::BadRequest("invalid regex: "@ + text)),
        None => match filter {
            Some(glob) => match compile_failure(seq![glob]) {
                Some(text) => Some(Failure::BadRequest("invalid glob: "@ + text)),
                None => None,
            },
            None => None,
        },
    }
}

/// What `search_files` answers: the refusal; or a bad request that names
/// the regex or the file pattern where one of them does not compile; or the
/// files with matching lines as indented JSON text, with their number.
pub open spec fn search_files_outcome(
    cfg: RunnerConfig,
    path: Seq<char>,
    pattern: Seq<char>,
    filter: Option<Seq<char>>,
    canonical: Option<Seq<char>>,
    files: Seq<FileText>,
) -> Result<EnvelopeView, Failure> {
    match read_target_of(cfg, path, canonical) {
        Err(e) => Err(e),
        Ok(_) => match search_failure(pattern, filter) {
            Some(e) => Err(e),
            None => Ok(search_envelope(found_in(cfg, pattern, filter, files))),
        },
    }
}

/// What a search looks for and where: the directory, the compiled regex and
/// the compiled file pattern.
pub struct SearchScope {
    root: ResolvedPath,
    regex: Regex,
    filter: Option<GlobSet>,
}

impl SearchScope {
    #[verifier::type_invariant]
    spec fn one_filter(&self) -> bool {
        self.filter matches Some(set) ==> set_patterns(set).len() == 1
    }

    /// The pattern of the regex.
    pub closed spec fn pattern(&self) -> Seq<char> {
        regex_source(self.regex)
    }

    /// The file pattern, if there is one.
    pub closed spec fn filter(&self) -> Option<Seq<char>> {
        match self.filter {
            Some(set) => Some(set_patterns(set)[0]),
            None => None,
        }
    }

    /// The directory to walk.
    pub closed spec fn directory(&self) -> ResolvedPath {
        self.root
    }

    /// The directory to walk.
    pub fn root(&self) -> (root: &ResolvedPath)
        ensures
            *root == self.directory(),
    {
        &self.root
    }

    /// The root-relative path of a file the search looks into, or nothing
    /// for a file it skips.
    pub fn selects(&self, cfg: &RunnerConfig, path: &str) -> (rel: Option<String>)
        ensures
            rel is Some <==> selected(*cfg, self.filter(), path@),
            rel matches Some(r) ==> r@ == relative_to(path@, cfg.root_dir@),
    {
        proof {
            use_type_invariant(self);
        }
        if !is_contained(path, cfg.root_dir.as_str()) {
            return None;
        }
        let rel = relative(path, cfg.root_dir.as_str());
        if !cfg.can_read(rel.as_str()) {
            return None;
        }
        match &self.filter {
            Some(set) => {
                if !set_is_match(set, rel.as_str()) {
                    return None;
                }
            },
            None => {},
        }
        Some(rel)
    }

    /// The matching lines of a file's text, or nothing where no line
    /// matches.
    pub fn scan(&self, file: String, content: &str) -> (found: Option<FileMatches>)
        ensures
            found is Some <==> hits_in(self.pattern(), lines_of(content@)).len() > 0,
            found matches Some(m) ==> m@ == (FileHits {
                file: file@,
                hits: hits_in(self.pattern(), lines_of(content@)),
            }),
    {
        let all = lines(content);
        let mut matches: Vec<LineMatch> = Vec::new();
        let mut i: usize = 0;
        let ghost texts_all = texts(all@);
        while i < all.len()
            invariant
                i <= all.len(),
                texts_all == texts(all@),
                hit_views(matches@) == hits_in(self.pattern(), texts_all.take(i as int)),
            decreases all.len() - i,
        {
            assert(texts_all.take(i + 1).drop_last() =~= texts_all.take(i as int));
            if regex_is_match(&self.regex, all[i].as_str()) {
                let hit = LineMatch { line_number: i + 1, content: all[i].clone() };
                matches.push(hit);
            }
            i = i + 1;
        }
        assert(texts_all.take(i as int) =~= texts_all);
        if matches.len() == 0 {
            None
        } else {
            Some(FileMatches { file, matches })
        }
    }
}

/// What a search scope holds.
pub open spec fn scope_view(r: Result<SearchScope, ApiError>) -> Result<Seq<char>, Failure> {
    match r {
        Ok(scope) => Ok(scope.directory()@),
        Err(e) => Err(e@),
    }
}

/// Prepares a search: checks that the directory may be read, and compiles
/// the regex and the file pattern.
pub fn search_scope(cfg: &RunnerConfig, inp: &SearchFilesIn, canonical: Option<String>) -> (r:
    Result<SearchScope, ApiError>)
    ensures
        scope_view(r) == match read_target_of(*cfg, inp.path@, option_text(canonical)) {
            Err(e) => Err(e),
            Ok(dir) => match search_failure(inp.regex@, option_text(inp.file_pattern)) {
                Some(e) => Err(e),
                None => Ok(dir),
            },
        },
        r matches Ok(scope) ==> scope.pattern() == inp.regex@ && scope.filter() == option_text(
            inp.file_pattern,
        ) && path_starts_with(scope.directory()@, cfg.root_dir@),
{
    let root = match read_target(cfg, inp.path.as_str(), canonical) {
        Ok(root) => root,
        Err(e) => {
            return Err(e);
        },
    };
    let regex = match compile_regex(inp.regex.as_str()) {
        Ok(regex) => regex,
        Err(e) => {
            let detail = "invalid regex: ".to_owned().concat(regex_error_text(&e).as_str());
            return Err(ApiError::BadRequest(detail));
        },
    };
    let filter = match &inp.file_pattern {
        Some(pattern) => {
            let one: Vec<&str> = vec![pattern.as_str()];
            assert(crate::globs::strs(one@) =~= seq![pattern@]);
            match build_globset(one.as_slice()) {
                Ok(set) => Some(set),
                Err(e) => {
                    let detail = "invalid glob: ".to_owned().concat(glob_error_text(&e).as_str());
                    return Err(ApiError::BadRequest(detail));
                },
            }
        },
        None => None,
    };
    Ok(SearchScope { root, regex, filter })
}

/// The JSON form of the lines of one file.
fn hits_to_json(matches: &Vec<LineMatch>) -> (v: Value)
    ensures
        json_model(v) == JsonModel::List(hit_views(matches@).map_values(|h: Hit| hit_json(h))),
{
    let mut out: Vec<Value> = Vec::new();
    let mut i: usize = 0;
    while i < matches.len()
        invariant
            i <= matches.len(),
            out.len() == i,
            forall|j: int| 0 <= j < i ==> json_model(#[trigger] out@[j]) == hit_json(matches@[j]@),
        decreases matches.len() - i,
    {
        let m = &matches[i];
        out.push(
            json_object2(
                "line_number",
                json_unsigned(m.line_number as u64),
                "content",
                json_text(m.content.as_str()),
            ),
        );
        i = i + 1;
    }
    assert(models(out@) =~= hit_views(matches@).map_values(|h: Hit| hit_json(h)));
    json_list(out)
}

/// The JSON forms of the files of a search.
fn found_to_json(found: &Vec<FileMatches>) -> (out: Vec<Value>)
    ensures
        models(out@) == found_views(found@).map_values(|f: FileHits| file_json(f)),
{
    let mut out: Vec<Value> = Vec::new();
    let mut i: usize = 0;
    while i < found.len()
        invariant
            i <= found.len(),
            out.len() == i,
            forall|j: int| 0 <= j < i ==> json_model(#[trigger] out@[j]) == file_json(found@[j]@),
        decreases found.len() - i,
    {
        let f = &found[i];
        out.push(
            json_object2("file", json_text(f.file.as_str()), "matches", hits_to_json(&f.matches)),
        );
        i = i + 1;
    }
    out
}

/// The envelope of a prepared search over the files of a walk.
pub fn search_in(cfg: &RunnerConfig, scope: &SearchScope, files: &Vec<FileText>) -> (env:
    ToolEnvelope)
    ensures
        env@ == search_envelope(found_in(*cfg, scope.pattern(), scope.filter(), files@)),
{
    let mut found: Vec<FileMatches> = Vec::new();
    let mut i: usize = 0;
    while i < files.len()
        invariant
            i <= files.len(),
            found_views(found@) == found_in(
                *cfg,
                scope.pattern(),
                scope.filter(),
                files@.take(i as int),
            ),
        decreases files.len() - i,
    {
        let file = &files[i];
        assert(files@.take(i + 1).drop_last() =~= files@.take(i as int));
        match &file.content {
            Some(text) => match scope.selects(cfg, file.path.as_str()) {
                Some(rel) => match scope.scan(rel, text.as_str()) {
                    Some(hits) => {
                        found.push(hits);
                    },
                    None => {},
                },
                None => {},
            },
            None => {},
        }
        i = i + 1;
    }
    assert(files@.take(i as int) =~= files@);
    let count = found.len();
    let report = found_to_json(&found);
    let env = ToolEnvelope::ok(
        "search_files",
        to_pretty_text(&report),
        json_object1("files_matched", json_unsigned(count as u64)),
        0,
    );
    env
}

/// Searches the files below a directory for lines that match a regex.
/// `canonical` is the canonical form of the directory's candidate path;
/// `files` are the regular files of the walk below it, in its order, each
/// with its text where `selects` asked for it and it could be read.
pub fn search_files(
    cfg: &RunnerConfig,
    inp: &SearchFilesIn,
    canonical: Option<String>,
    files: &Vec<FileText>,
) -> (r: Result<ToolEnvelope, ApiError>)
    ensures
        outcome_view(r) == search_files_outcome(
            *cfg,
            inp.path@,
            inp.regex@,
            option_text(inp.file_pattern),
            option_text(canonical),
            files@,
        ),
{
    match search_scope(cfg, inp, canonical) {
        Ok(scope) => Ok(search_in(cfg, &scope, files)),
        Err(e) => Err(e),
    }
}

/// What a change does to its target.
#[derive(Clone, Copy, Debug, PartialEq, Eq, Structural)]
pub enum ChangeOp {
    Add,
    Update,
    Delete,
}

/// One change of a patch.
#[derive(Debug)]
pub struct FileChange {
    pub path: String,
    pub op: ChangeOp,
    pub content: String,
}

/// The input of `apply_patch`: changes, applied strictly in order.
#[derive(Debug)]
pub struct ApplyPatchIn {
    pub changes: Vec<FileChange>,
}

/// What the host is to do for a change.
#[derive(Clone, Copy, Debug, PartialEq, Eq, Structural)]
pub enum PatchAction {
    /// Create the parent directories and write the content to a new file.
    Create,
    /// Note the length of the old text, then write the content over it.
    Overwrite,
    /// Remove the file.
    Remove,
    /// Nothing: the file to delete is not there.
    Nothing,
}

/// What the host saw and did for one change.
#[derive(Debug)]
pub struct ChangeObservation {
    /// The canonical form of the target's candidate path, if there is one.
    pub canonical: Option<String>,
    /// Whether the target existed when the change was reached.
    pub exists: bool,
    /// The length in bytes of the text an update replaced; 0 where it could
    /// not be read.
    pub old_bytes: usize,
    /// The failure of the action, if it failed.
    pub failure: Option<String>,
}

/// Why a change is refused before the host looks at its target: the
/// profile does not let its path be written, or the path cannot be
/// resolved at all. Nothing where the host is to look.
pub open spec fn early_refusal(cfg: RunnerConfig, path: Seq<char>) -> Option<Failure> {
    if !cfg.may_write(path) {
        Some(Failure::Forbidden("write denied"@))
    } else if !usable(path) {
        Some(unusable_reason(path))
    } else {
        None
    }
}

/// The path a change may touch: the profile must let its path be written
/// as it was given, it must resolve under the root, and the profile must
/// let what it resolves to be written as well.
pub open spec fn patch_target_of(
    cfg: RunnerConfig,
    path: Seq<char>,
    canonical: Option<Seq<char>>,
) -> Result<Seq<char>, Failure> {
    match early_refusal(cfg, path) {
        Some(e) => Err(e),
        None => match resolved(cfg.root_dir@, path, canonical) {
            Err(e) => Err(e),
            Ok(full) => if !cfg.may_write(subject_of(full, cfg.root_dir@)) {
                Err(Failure::Forbidden("write denied"@))
            } else {
                Ok(full)
            },
        },
    }
}

/// What is to be done for a change: an `Add` needs its target to be absent,
/// an `Update` needs it to be there, and a `Delete` of what is absent is
/// nothing to do.
pub open spec fn action_for(op: ChangeOp, path: Seq<char>, exists: bool) -> Result<
    PatchAction,
    Failure,
> {
    match op {
        ChangeOp::Add => if exists {
            Err(Failure::BadRequest("exists: "@ + path))
        } else {
            Ok(PatchAction::Create)
        },
        ChangeOp::Update => if !exists {
            Err(Failure::BadRequest("missing: "@ + path))
        } else {
            Ok(PatchAction::Overwrite)
        },
        ChangeOp::Delete => if exists {
            Ok(PatchAction::Remove)
        } else {
            Ok(PatchAction::Nothing)
        },
    }
}

/// The length of a text in bytes, as `str::len` gives it.
pub open spec fn byte_len(text: Seq<char>) -> nat {
    (encode_utf8(text).len() as usize) as nat
}

/// The record of an applied change: its root-relative path, its operation
/// and the byte lengths involved.
pub open spec fn diff_json(
    op: ChangeOp,
    rel: Seq<char>,
    old_bytes: nat,
    new_bytes: nat,
) -> JsonModel {
    match op {
        ChangeOp::Add => JsonModel::Object(
            Map::empty().insert("path"@, JsonModel::Text(rel)).insert(
                "op"@,
                JsonModel::Text("add"@),
            ).insert("bytes"@, JsonModel::Number(new_bytes as int)),
        ),
        ChangeOp::Update => JsonModel::Object(
            Map::empty().insert("path"@, JsonModel::Text(rel)).insert(
                "op"@,
                JsonModel::Text("update"@),
            ).insert("old_bytes"@, JsonModel::Number(old_bytes as int)).insert(
                "new_bytes"@,
                JsonModel::Number(new_bytes as int),
            ),
        ),
        ChangeOp::Delete => object2(
            "path"@,
            JsonModel::Text(rel),
            "op"@,
            JsonModel::Text("delete"@),
        ),
    }
}

/// What comes of one change: the refusal, or the reason why it cannot be
/// done, or the failure of the host's action, or the record of the change.
pub open spec fn change_outcome(
    cfg: RunnerConfig,
    change: FileChange,
    seen: ChangeObservation,
) -> Result<JsonModel, Failure> {
    match patch_target_of(cfg, change.path@, option_text(seen.canonical)) {
        Err(e) => Err(e),
        Ok(full) => match action_for(change.op, change.path@, seen.exists) {
            Err(e) => Err(e),
            Ok(action) => if action != PatchAction::Nothing && seen.failure is Some {
                Err(Failure::Other(seen.failure->0@))
            } else {
                Ok(
                    diff_json(
                        change.op,
                        relative_to(full, cfg.root_dir@),
                        seen.old_bytes as nat,
                        byte_len(change.content@),
                    ),
                )
            },
        },
    }
}

/// The records of the changes, in order, or the failure of the first change
/// that fails. A change is refused before the host is asked for anything;
/// a change that is not refused and that the host has no observation for
/// was not applied.
pub open spec fn patch_diffs(
    cfg: RunnerConfig,
    changes: Seq<FileChange>,
    seen: Seq<ChangeObservation>,
) -> Result<Seq<JsonModel>, Failure>
    decreases changes.len(),
{
    if changes.len() == 0 {
        Ok(Seq::empty())
    } else {
        match patch_diffs(cfg, changes.drop_last(), seen) {
            Err(e) => Err(e),
            Ok(diffs) => {
                let k = changes.len() - 1;
                match early_refusal(cfg, changes[k].path@) {
                    Some(e) => Err(e),
                    None => if k >= seen.len() {
                        Err(Failure::Other("change not applied"@))
                    } else {
                        match change_outcome(cfg, changes[k], seen[k]) {
                            Err(e) => Err(e),
                            Ok(diff) => Ok(diffs.push(diff)),
                        }
                    },
                }
            },
        }
    }
}

/// What `apply_patch` answers: an empty patch is a bad request; else the
/// failure of the first change that fails, or the records of all changes.
pub open spec fn apply_patch_outcome(
    cfg: RunnerConfig,
    changes: Seq<FileChange>,
    seen: Seq<ChangeObservation>,
) -> Result<EnvelopeView, Failure> {
    if changes.len() == 0 {
        Err(Failure::BadRequest("no changes"@))
    } else {
        match patch_diffs(cfg, changes, seen) {
            Err(e) => Err(e),
            Ok(diffs) => Ok(
                ok_view("apply_patch"@, "ok"@, object1("changes"@, JsonModel::List(diffs)), 0),
            ),
        }
    }
}

/// What a refusal holds.
pub open spec fn refusal_view(e: Option<ApiError>) -> Option<Failure> {
    match e {
        Some(e) => Some(e@),
        None => None,
    }
}

/// Why a change is refused before the host looks at its target, or nothing
/// where the host is to look.
pub fn patch_refusal(cfg: &RunnerConfig, change: &FileChange) -> (e: Option<ApiError>)
    ensures
        refusal_view(e) == early_refusal(*cfg, change.path@),
{
    if !cfg.can_write(change.path.as_str()) {
        return Some(ApiError::forbidden("write denied"));
    }
    match usable_path(change.path.as_str()) {
        Ok(_) => None,
        Err(e) => Some(e),
    }
}

/// The path a change may touch, or why it may touch none.
pub fn patch_target(cfg: &RunnerConfig, change: &FileChange, canonical: Option<String>) -> (r:
    Result<ResolvedPath, ApiError>)
    ensures
        resolution_view(r) == patch_target_of(*cfg, change.path@, option_text(canonical)),
        r matches Ok(p) ==> p.root() == cfg.root_dir@ && contained(p@, cfg.root_dir@)
            && cfg.may_write(subject_of(p@, cfg.root_dir@)),
{
    match patch_refusal(cfg, change) {
        Some(e) => {
            return Err(e);
        },
        None => {},
    }
    let full = match resolve_under_root(cfg, change.path.as_str(), canonical) {
        Ok(full) => full,
        Err(e) => {
            return Err(e);
        },
    };
    if !cfg.can_write(subject(&full).as_str()) {
        return Err(ApiError::forbidden("write denied"));
    }
    Ok(full)
}

/// What an action decision holds.
pub open spec fn action_view(r: Result<PatchAction, ApiError>) -> Result<PatchAction, Failure> {
    match r {
        Ok(action) => Ok(action),
        Err(e) => Err(e@),
    }
}

/// What the host is to do for a change whose target exists or not. On an
/// error the host does nothing to the target.
pub fn patch_action(change: &FileChange, exists: bool) -> (r: Result<PatchAction, ApiError>)
    ensures
        action_view(r) == action_for(change.op, change.path@, exists),
{
    match change.op {
        ChangeOp::Add => if exists {
            Err(ApiError::BadRequest("exists: ".to_owned().concat(change.path.as_str())))
        } else {
            Ok(PatchAction::Create)
        },
        ChangeOp::Update => if !exists {
            Err(ApiError::BadRequest("missing: ".to_owned().concat(change.path.as_str())))
        } else {
            Ok(PatchAction::Overwrite)
        },
        ChangeOp::Delete => if exists {
            Ok(PatchAction::Remove)
        } else {
            Ok(PatchAction::Nothing)
        },
    }
}

/// What a change record holds.
pub open spec fn diff_view(r: Result<Value, ApiError>) -> Result<JsonModel, Failure> {
    match r {
        Ok(v) => Ok(json_model(v)),
        Err(e) => Err(e@),
    }
}

fn diff_record(op: ChangeOp, rel: &str, old_bytes: usize, new_bytes: usize) -> (v: Value)
    ensures
        json_model(v) == diff_json(op, rel@, old_bytes as nat, new_bytes as nat),
{
    match op {
        ChangeOp::Add => {
            let mut m = json_map();
            json_insert(&mut m, "path", json_text(rel));
            json_insert(&mut m, "op", json_text("add"));
            json_insert(&mut m, "bytes", json_unsigned(new_bytes as u64));
            json_object(m)
        },
        ChangeOp::Update => {
            let mut m = json_map();
            json_insert(&mut m, "path", json_text(rel));
            json_insert(&mut m, "op", json_text("update"));
            json_insert(&mut m, "old_bytes", json_unsigned(old_bytes as u64));
            json_insert(&mut m, "new_bytes", json_unsigned(new_bytes as u64));
            json_object(m)
        },
        ChangeOp::Delete => json_object2("path", json_text(rel), "op", json_text("delete")),
    }
}

/// The record of one change as the host saw it through, or its failure.
pub fn apply_change(cfg: &RunnerConfig, change: &FileChange, seen: &ChangeObservation) -> (r:
    Result<Value, ApiError>)
    ensures
        diff_view(r) == change_outcome(*cfg, *change, *seen),
{
    let canonical = match &seen.canonical {
        Some(c) => Some(c.clone()),
        None => None,
    };
    let full = match patch_target(cfg, change, canonical) {
        Ok(full) => full,
        Err(e) => {
            return Err(e);
        },
    };
    let action = match patch_action(change, seen.exists) {
        Ok(action) => action,
        Err(e) => {
            return Err(e);
        },
    };
    if action != PatchAction::Nothing {
        match &seen.failure {
            Some(f) => {
                return Err(ApiError::Other(f.clone()));
            },
            None => {},
        }
    }
    let rel = relative(full.as_str(), cfg.root_dir.as_str());
    Ok(diff_record(change.op, rel.as_str(), seen.old_bytes, change.content.as_str().len()))
}

/// Applies a patch. `seen` holds, for each change the host reached, what it
/// saw and did; the host reaches a change only after all before it went
/// through. Nothing is rolled back: where change `k` fails, those before it
/// stay applied.
pub fn apply_patch(cfg: &RunnerConfig, inp: &ApplyPatchIn, seen: &Vec<ChangeObservation>) -> (r:
    Result<ToolEnvelope, ApiError>)
    ensures
        outcome_view(r) == apply_patch_outcome(*cfg, inp.changes@, seen@),
{
    if inp.changes.len() == 0 {
        return Err(ApiError::bad_request("no changes"));
    }
    let mut diffs: Vec<Value> = Vec::new();
    let mut i: usize = 0;
    assert(models(diffs@) =~= Seq::<JsonModel>::empty());
    while i < inp.changes.len()
        invariant
            i <= inp.changes.len(),
            patch_diffs(*cfg, inp.changes@.take(i as int), seen@) == Ok::<Seq<JsonModel>, Failure>(
                models(diffs@),
            ),
        decreases inp.changes.len() - i,
    {
        let ghost before = models(diffs@);
        assert(inp.changes@.take(i + 1).drop_last() =~= inp.changes@.take(i as int));
        match patch_refusal(cfg, &inp.changes[i]) {
            Some(e) => {
                proof {
                    lemma_patch_failure_stays(*cfg, inp.changes@, seen@, i + 1);
                }
                return Err(e);
            },
            None => {},
        }
        if i >= seen.len() {
            proof {
                lemma_patch_failure_stays(*cfg, inp.changes@, seen@, i + 1);
            }
            return Err(ApiError::Other("change not applied".to_owned()));
        }
        match apply_change(cfg, &inp.changes[i], &seen[i]) {
            Ok(diff) => {
                diffs.push(diff);
                assert(models(diffs@) =~= before.push(json_model(diff)));
            },
            Err(e) => {
                proof {
                    lemma_patch_failure_stays(*cfg, inp.changes@, seen@, i + 1);
                }
                return Err(e);
            },
        }
        i = i + 1;
    }
    assert(inp.changes@.take(i as int) =~= inp.changes@);
    let record = json_object1("changes", json_list(diffs));
    Ok(ToolEnvelope::ok("apply_patch", "ok".to_owned(), record, 0))
}

/// A patch fails with the failure of its first failing change: once a
/// prefix of the changes has failed, every longer prefix fails the same way.
pub proof fn lemma_patch_failure_stays(
    cfg: RunnerConfig,
    changes: Seq<FileChange>,
    seen: Seq<ChangeObservation>,
    k: int,
)
    requires
        0 <= k <= changes.len(),
        patch_diffs(cfg, changes.take(k), seen) is Err,
    ensures
        patch_diffs(cfg, changes, seen) == patch_diffs(cfg, changes.take(k), seen),
    decreases changes.len() - k,
{
    if k == changes.len() {
        assert(changes.take(k) =~= changes);
    } else {
        assert(changes.take(k + 1).drop_last() =~= changes.take(k));
        lemma_patch_failure_stays(cfg, changes, seen, k + 1);
    }
}

/// In `prod` no patch is applied: whatever the changes are and whatever the
/// host reports, a patch that is not empty is refused at its first change.
pub proof fn lemma_prod_applies_no_patch(
    cfg: RunnerConfig,
    changes: Seq<FileChange>,
    seen: Seq<ChangeObservation>,
)
    requires
        cfg.wf(),
        cfg.profile == crate::config::Profile::Prod,
        changes.len() > 0,
    ensures
        apply_patch_outcome(cfg, changes, seen) == Err::<EnvelopeView, Failure>(
            Failure::Forbidden("write denied"@),
        ),
{
    crate::config::lemma_prod_rejects_every_write(cfg, changes[0].path@);
    let first = changes.take(1);
    assert(patch_diffs(cfg, first.drop_last(), seen) is Ok);
    lemma_patch_failure_stays(cfg, changes, seen, 1);
}

/// The rules of the three operations. Adding what exists and updating what
/// is missing are bad requests, for which the host is told to do nothing;
/// deleting what is missing succeeds and changes nothing.
pub proof fn lemma_patch_rules(path: Seq<char>)
    ensures
        action_for(ChangeOp::Add, path, true) == Err::<PatchAction, Failure>(
            Failure::BadRequest("exists: "@ + path),
        ),
        action_for(ChangeOp::Update, path, false) == Err::<PatchAction, Failure>(
            Failure::BadRequest("missing: "@ + path),
        ),
        action_for(ChangeOp::Delete, path, false) == Ok::<PatchAction, Failure>(
            PatchAction::Nothing,
        ),
{
}

/// A change that the profile lets through and that resolves under the root
/// follows the rules of its operation: adding what exists and updating what
/// is missing fail, and deleting what is missing is recorded as done
/// whatever the host reports.
pub proof fn lemma_change_follows_rules(
    cfg: RunnerConfig,
    change: FileChange,
    seen: ChangeObservation,
)
    requires
        patch_target_of(cfg, change.path@, option_text(seen.canonical)) is Ok,
    ensures
        change.op == ChangeOp::Add && seen.exists ==> change_outcome(cfg, change, seen) == Err::<
            JsonModel,
            Failure,
        >(Failure::BadRequest("exists: "@ + change.path@)),
        change.op == ChangeOp::Update && !seen.exists ==> change_outcome(cfg, change, seen)
            == Err::<JsonModel, Failure>(Failure::BadRequest("missing: "@ + change.path@)),
        change.op == ChangeOp::Delete && !seen.exists ==> change_outcome(cfg, change, seen) is Ok,
{
}

} // verus!
