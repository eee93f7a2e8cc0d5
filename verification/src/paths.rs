//! Path operations of the standard library (`std::path`), taken on path text.
//!
//! Each function hands its string to `std::path::Path` and gives the answer back as text.
//! How a path splits into components is defined by `std::path` for the platform the crate is
//! built for; the names below stand for those answers. The file stem and the extension are
//! stated over the file name, as `std::path` documents them.
use vstd::prelude::*;
use crate::text::{chars_of, push_char};

verus! {

/// The final component of path `p`, as `Path::file_name` gives it.
pub uninterp spec fn file_name_of(p: Seq<char>) -> Option<Seq<char>>;

/// Path `p` without its final component, as `Path::parent` gives it.
pub uninterp spec fn parent_of(p: Seq<char>) -> Option<Seq<char>>;

/// Path `p` relative to `base`, as `Path::strip_prefix` gives it (`None` when `base` is not
/// a prefix of `p`).
pub uninterp spec fn stripped_of(p: Seq<char>, base: Seq<char>) -> Option<Seq<char>>;

/// Path `base` extended by `rest`, as `Path::join` gives it.
pub uninterp spec fn joined(base: Seq<char>, rest: Seq<char>) -> Seq<char>;

/// Whether path `a` comes no later than path `b` in the order of `Path`'s `Ord`
/// (component by component).
pub uninterp spec fn path_le(a: Seq<char>, b: Seq<char>) -> bool;

/// The paths in `paths` in the order that sorting a vector of `PathBuf`s gives them.
pub uninterp spec fn path_sorted(paths: Seq<Seq<char>>) -> Seq<Seq<char>>;

/// The position of the last `.` among the first `n` characters of `name`, or -1 when there
/// is none.
pub open spec fn last_dot_before(name: Seq<char>, n: int) -> int
    decreases n,
{
    if n <= 0 {
        -1
    } else if name[n - 1] == '.' {
        n - 1
    } else {
        last_dot_before(name, n - 1)
    }
}

/// The position of the `.` that separates a file name's stem from its extension: the last
/// `.` of the name, unless that is its first character (or the name has no `.`), when there is
/// none (-1 or 0).
pub open spec fn final_dot(name: Seq<char>) -> int {
    last_dot_before(name, name.len() as int)
}

/// The extension of path `p` (without the dot), as `Path::extension` documents it: none
/// without a file name, none when the file name has no `.` or only a leading one, and
/// otherwise what follows the final `.`.
pub open spec fn extension_of(p: Seq<char>) -> Option<Seq<char>> {
    match file_name_of(p) {
        Some(name) => if final_dot(name) > 0 {
            Some(name.skip(final_dot(name) + 1))
        } else {
            None
        },
        None => None,
    }
}

/// The final component of path `p` without its extension, as `Path::file_stem` documents it:
/// none without a file name, the whole file name when it has no `.` or only a leading one, and
/// otherwise what precedes the final `.`.
pub open spec fn file_stem_of(p: Seq<char>) -> Option<Seq<char>> {
    match file_name_of(p) {
        Some(name) => if final_dot(name) > 0 {
            Some(name.take(final_dot(name)))
        } else {
            Some(name)
        },
        None => None,
    }
}

proof fn lemma_last_dot_bounds(name: Seq<char>, n: int)
    requires
        0 <= n <= name.len(),
    ensures
        -1 <= last_dot_before(name, n) < n,
    decreases n,
{
    if n > 0 && name[n - 1] != '.' {
        lemma_last_dot_bounds(name, n - 1);
    }
}

/// The position of the final `.` of `name` (see `final_dot`), when there is one.
fn find_final_dot(name: &Vec<char>) -> (r: Option<usize>)
    ensures
        match r {
            Some(k) => k == final_dot(name@) && k < name.len(),
            None => final_dot(name@) == -1,
        },
{
    let mut k: usize = name.len();
    while k > 0 && name[k - 1] != '.'
        invariant
            k <= name.len(),
            last_dot_before(name@, name.len() as int) == last_dot_before(name@, k as int),
        decreases k,
    {
        k -= 1;
    }
    proof {
        lemma_last_dot_bounds(name@, name.len() as int);
    }
    if k == 0 {
        None
    } else {
        Some(k - 1)
    }
}

/// The characters `name[from..to]` as a string.
fn piece(name: &Vec<char>, from: usize, to: usize) -> (r: String)
    requires
        from <= to <= name.len(),
    ensures
        r@ == name@.subrange(from as int, to as int),
{
    let mut r = String::new();
    let mut k = from;
    while k < to
        invariant
            from <= k <= to <= name.len(),
            r@ == name@.subrange(from as int, k as int),
        decreases to - k,
    {
        push_char(&mut r, name[k]);
        assert(r@ =~= name@.subrange(from as int, k + 1));
        k += 1;
    }
    r
}

/// The text of an optional path piece, empty when there is none
/// (what `unwrap_or_default` gives).
pub open spec fn or_empty(o: Option<Seq<char>>) -> Seq<char> {
    match o {
        Some(s) => s,
        None => Seq::empty(),
    }
}

proof fn lemma_last_dot(name: Seq<char>, n: int)
    requires
        0 <= n <= name.len(),
    ensures
        ({
            let r = last_dot_before(name, n);
            &&& -1 <= r < n
            &&& r >= 0 ==> name[r] == '.'
            &&& forall|i: int| r < i < n ==> name[i] != '.'
        }),
    decreases n,
{
    if n > 0 && name[n - 1] != '.' {
        lemma_last_dot(name, n - 1);
    }
}

/// A file name splits into its stem and its extension: when there is an extension, the name is
/// the stem, a dot and the extension, the stem is not empty and the extension holds no dot;
/// when there is none, the stem is the whole name, which has no dot after its first character.
/// A path without a file name has neither.
pub proof fn lemma_stem_and_extension(p: Seq<char>)
    ensures
        file_name_of(p) is None ==> file_stem_of(p) is None && extension_of(p) is None,
        file_name_of(p) matches Some(name) ==> match extension_of(p) {
            Some(e) => {
                &&& file_stem_of(p) matches Some(stem) && name == stem + "."@ + e && stem.len() > 0
                &&& forall|i: int| 0 <= i < e.len() ==> e[i] != '.'
            },
            None => {
                &&& file_stem_of(p) == Some(name)
                &&& forall|i: int| 0 < i < name.len() ==> name[i] != '.'
            },
        },
{
    reveal_strlit(".");
    if let Some(name) = file_name_of(p) {
        lemma_last_dot(name, name.len() as int);
        let d = final_dot(name);
        if d > 0 {
            let e = name.skip(d + 1);
            let stem = name.take(d);
            assert(name =~= stem + "."@ + e);
            assert forall|i: int| 0 <= i < e.len() implies e[i] != '.' by {
                assert(e[i] == name[d + 1 + i]);
            }
        }
    }
}

/// `Path::file_stem` of `p`: the file name up to its final `.`.
pub fn file_stem(p: &str) -> (r: Option<String>)
    ensures
        r.deep_view() == file_stem_of(p@),
{
    match file_name(p) {
        Some(n) => {
            let name = chars_of(n.as_str());
            match find_final_dot(&name) {
                Some(d) if d > 0 => Some(piece(&name, 0, d)),
                _ => Some(n),
            }
        },
        None => None,
    }
}

/// `Path::file_name` of `p`. Trusted: the answer is `file_name_of(p@)`.
#[verifier::external_body]
pub(crate) fn file_name(p: &str) -> (r: Option<String>)
    ensures
        r.deep_view() == file_name_of(p@),
{
    std::path::Path::new(p).file_name().map(|s| s.to_string_lossy().into_owned())
}

/// `Path::parent` of `p`. Trusted: the answer is `parent_of(p@)`.
#[verifier::external_body]
pub(crate) fn parent(p: &str) -> (r: Option<String>)
    ensures
        r.deep_view() == parent_of(p@),
{
    std::path::Path::new(p).parent().map(|s| s.to_string_lossy().into_owned())
}

/// `Path::extension` of `p`: the file name after its final `.`.
pub fn extension(p: &str) -> (r: Option<String>)
    ensures
        r.deep_view() == extension_of(p@),
{
    match file_name(p) {
        Some(n) => {
            let name = chars_of(n.as_str());
            match find_final_dot(&name) {
                Some(d) if d > 0 => Some(piece(&name, d + 1, name.len())),
                _ => None,
            }
        },
        None => None,
    }
}

/// `Path::strip_prefix` of `p` by `base`, `None` on its error.
/// Trusted: the answer is `stripped_of(p@, base@)`.
#[verifier::external_body]
pub(crate) fn strip_prefix(p: &str, base: &str) -> (r: Option<String>)
    ensures
        r.deep_view() == stripped_of(p@, base@),
{
    std::path::Path::new(p).strip_prefix(base).ok().map(|s| s.to_string_lossy().into_owned())
}

/// `Path::join` of `base` and `rest`. Trusted: the answer is `joined(base@, rest@)`.
#[verifier::external_body]
pub(crate) fn join(base: &str, rest: &str) -> (r: String)
    ensures
        r@ == joined(base@, rest@),
{
    std::path::Path::new(base).join(rest).to_string_lossy().into_owned()
}

/// Sorts paths with `slice::sort` on `PathBuf`s (component-wise order).
/// Trusted: the answer is `path_sorted(paths)`; it holds the same paths, each as often as the
/// input, in ascending path order.
#[verifier::external_body]
pub(crate) fn sort_paths(paths: Vec<String>) -> (r: Vec<String>)
    ensures
        r.deep_view() == path_sorted(paths.deep_view()),
        r.deep_view().to_multiset() == paths.deep_view().to_multiset(),
        r.len() == paths.len(),
        forall|i: int, j: int|
            0 <= i <= j < r.len() ==> path_le(#[trigger] r.deep_view()[i], #[trigger] r.deep_view()[j]),
{
    let mut v: Vec<std::path::PathBuf> = paths.into_iter().map(std::path::PathBuf::from).collect();
    v.sort();
    v.into_iter().map(|p| p.to_string_lossy().into_owned()).collect()
}

} // verus!
