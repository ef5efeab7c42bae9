//! Lexical operations on paths, as `std::path` performs them on the
//! platform the gateway runs on. None of them touches the file system.

use vstd::prelude::*;
use std::path::Path;

verus! {

/// The path that `Path::join` makes of `base` and `rel`.
pub uninterp spec fn path_join(base: Seq<char>, rel: Seq<char>) -> Seq<char>;

/// The components `Path::components` finds in a path, each as text.
pub uninterp spec fn path_components(path: Seq<char>) -> Seq<Seq<char>>;

/// Whether `Path::is_absolute` holds of a path.
pub uninterp spec fn path_is_absolute(path: Seq<char>) -> bool;

/// Whether `Path::starts_with` finds `base` to be a prefix of `path`,
/// component by component.
pub uninterp spec fn path_starts_with(path: Seq<char>, base: Seq<char>) -> bool;

/// What `Path::strip_prefix` leaves of `path` behind `base`, if `base` is a
/// prefix of it.
pub uninterp spec fn path_strip_prefix(path: Seq<char>, base: Seq<char>) -> Option<Seq<char>>;

/// `Path::join`: `rel` adjoined to `base`.
#[verifier::external_body]
pub(crate) fn join(base: &str, rel: &str) -> (joined: String)
    ensures
        joined@ == path_join(base@, rel@),
{
    Path::new(base).join(rel).to_string_lossy().into_owned()
}

/// `Path::components`: the components of a path, in order.
#[verifier::external_body]
pub(crate) fn components(path: &str) -> (parts: Vec<String>)
    ensures
        crate::text::texts(parts@) == path_components(path@),
{
    Path::new(path).components().map(|c| c.as_os_str().to_string_lossy().into_owned()).collect()
}

/// `Path::is_absolute`.
#[verifier::external_body]
pub(crate) fn is_absolute(path: &str) -> (absolute: bool)
    ensures
        absolute == path_is_absolute(path@),
{
    Path::new(path).is_absolute()
}

/// `Path::starts_with`: whether `base` is a prefix of `path`, whole
/// components only.
#[verifier::external_body]
pub(crate) fn starts_with(path: &str, base: &str) -> (under: bool)
    ensures
        under == path_starts_with(path@, base@),
{
    Path::new(path).starts_with(base)
}

/// `Path::strip_prefix`: the path behind `base`, or nothing where `base` is
/// no prefix of `path`.
#[verifier::external_body]
pub(crate) fn strip_prefix(path: &str, base: &str) -> (rest: Option<String>)
    ensures
        crate::text::option_text(rest) == path_strip_prefix(path@, base@),
{
    Path::new(path).strip_prefix(base).ok().map(|p| p.to_string_lossy().into_owned())
}

/// The path put together again from components, starting from the empty
/// path.
pub open spec fn rebuilt(parts: Seq<Seq<char>>) -> Seq<char>
    decreases parts.len(),
{
    if parts.len() == 0 {
        Seq::empty()
    } else {
        path_join(rebuilt(parts.drop_last()), parts.last())
    }
}

/// A path in lexically normal form: its components joined again, which
/// drops repeated separators and `.` inside it.
pub open spec fn normalized(path: Seq<char>) -> Seq<char> {
    rebuilt(path_components(path))
}

/// The path put together again from components.
pub fn rebuild(parts: &Vec<String>) -> (path: String)
    ensures
        path@ == rebuilt(crate::text::texts(parts@)),
{
    let mut path = String::new();
    let mut i: usize = 0;
    let ghost all = crate::text::texts(parts@);
    while i < parts.len()
        invariant
            i <= parts.len(),
            all == crate::text::texts(parts@),
            path@ == rebuilt(all.take(i as int)),
        decreases parts.len() - i,
    {
        path = join(path.as_str(), parts[i].as_str());
        assert(all.take(i + 1).drop_last() =~= all.take(i as int));
        i = i + 1;
    }
    assert(all.take(i as int) =~= all);
    path
}

/// The lexically normal form of a path.
pub fn normalize(path: &str) -> (norm: String)
    ensures
        norm@ == normalized(path@),
{
    rebuild(&components(path))
}

/// Whether a component is the root of a path.
pub open spec fn is_root_part(part: Seq<char>) -> bool {
    part == "/"@ || part == "\\"@
}

/// The components with `.` and `..` folded, from left to right: `.` is
/// dropped; `..` takes back the name before it, is dropped behind the root,
/// and stays where nothing is before it that it could take back.
pub open spec fn folded(parts: Seq<Seq<char>>) -> Seq<Seq<char>>
    decreases parts.len(),
{
    if parts.len() == 0 {
        Seq::empty()
    } else {
        let before = folded(parts.drop_last());
        let part = parts.last();
        if part == ".."@ {
            if before.len() == 0 || before.last() == ".."@ {
                before.push(part)
            } else if is_root_part(before.last()) {
                before
            } else {
                before.drop_last()
            }
        } else if part == "."@ {
            before
        } else {
            before.push(part)
        }
    }
}

/// A path with `.` and `..` folded, without a look at the file system.
pub open spec fn folded_path(path: Seq<char>) -> Seq<char> {
    rebuilt(folded(path_components(path)))
}

/// The components with `.` and `..` folded.
pub fn fold_parts(parts: &Vec<String>) -> (out: Vec<String>)
    ensures
        crate::text::texts(out@) == folded(crate::text::texts(parts@)),
{
    let mut out: Vec<String> = Vec::new();
    let mut i: usize = 0;
    let ghost all = crate::text::texts(parts@);
    while i < parts.len()
        invariant
            i <= parts.len(),
            all == crate::text::texts(parts@),
            crate::text::texts(out@) == folded(all.take(i as int)),
        decreases parts.len() - i,
    {
        let part = parts[i].as_str();
        assert(all.take(i + 1).drop_last() =~= all.take(i as int));
        if part.eq("..") {
            let n = out.len();
            if n == 0 || out[n - 1].as_str().eq("..") {
                out.push(parts[i].clone());
            } else if !(out[n - 1].as_str().eq("/") || out[n - 1].as_str().eq("\\")) {
                out.pop();
            }
        } else if !part.eq(".") {
            out.push(parts[i].clone());
        }
        i = i + 1;
    }
    assert(all.take(i as int) =~= all);
    out
}

/// A path with `.` and `..` folded, without a look at the file system.
pub fn fold(path: &str) -> (out: String)
    ensures
        out@ == folded_path(path@),
{
    rebuild(&fold_parts(&components(path)))
}

/// Whether a path climbs: one of its components is `..`.
pub open spec fn climbs(path: Seq<char>) -> bool {
    path_components(path).contains(".."@)
}

/// Whether a path climbs: one of its components is `..`.
pub fn has_climb(path: &str) -> (found: bool)
    ensures
        found == climbs(path@),
{
    let parts = components(path);
    let mut i: usize = 0;
    while i < parts.len()
        invariant
            i <= parts.len(),
            crate::text::texts(parts@) == path_components(path@),
            forall|j: int| 0 <= j < i ==> crate::text::texts(parts@)[j] != ".."@,
        decreases parts.len() - i,
    {
        if parts[i].as_str().eq("..") {
            assert(crate::text::texts(parts@)[i as int] == ".."@);
            return true;
        }
        i = i + 1;
    }
    false
}

/// The path relative to `root`, or the path itself where it does not lie
/// under `root`.
pub open spec fn relative_to(path: Seq<char>, root: Seq<char>) -> Seq<char> {
    match path_strip_prefix(path, root) {
        Some(rest) => rest,
        None => path,
    }
}

/// The path relative to `root`, or the path itself where it does not lie
/// under `root`.
pub fn relative(path: &str, root: &str) -> (rel: String)
    ensures
        rel@ == relative_to(path@, root@),
{
    match strip_prefix(path, root) {
        Some(rest) => rest,
        None => path.to_owned(),
    }
}

} // verus!
