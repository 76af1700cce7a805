//! Path helpers: the project base of a source path and home-directory expansion.

use vstd::prelude::*;
use crate::utils::file::operation::src_marker;
use crate::utils::text::{chars_of, last_occurrence, rfind, string_of};

verus! {

/// The part of `path` before its last `/src`, or empty where there is none.
pub open spec fn base_of(path: Seq<char>) -> Seq<char> {
    match last_occurrence(path, src_marker()) {
        Some(i) => path.take(i),
        None => Seq::empty(),
    }
}

/// `path` begins with `~` followed by nothing or by a path separator, the form that
/// home-directory expansion rewrites.
pub open spec fn starts_with_home(path: Seq<char>) -> bool {
    &&& path.len() >= 1
    &&& path[0] == '~'
    &&& (path.len() == 1 || path[1] == '/' || path[1] == '\\')
}

/// What holds of every home-directory expansion of `path`: a path of another form
/// is left as it is; a `~` path becomes some prefix (the home directory) followed by
/// the rest of the path after `~`.
pub open spec fn is_home_expansion(path: Seq<char>, expanded: Seq<char>) -> bool {
    if starts_with_home(path) {
        &&& expanded.len() >= path.len() - 1
        &&& expanded.skip(expanded.len() - (path.len() - 1)) == path.skip(1)
    } else {
        expanded == path
    }
}

/// Calls `shellexpand::tilde`. Its source leaves a path that does not start with `~`
/// followed by the end, `/` or (on Windows) `\` unchanged; otherwise it returns the
/// home directory followed by the rest of the path, or the path unchanged where no
/// home directory is known. Which home directory comes back depends on the
/// environment and is left unsaid.
#[verifier::external_body]
fn tilde(path: &str) -> (expanded: String)
    ensures
        is_home_expansion(path@, expanded@),
{
    shellexpand::tilde(path).into_owned()
}

/// Expand a leading `~` of `path` to the home directory.
pub fn expand_home(path: &str) -> (expanded: String)
    ensures
        is_home_expansion(path@, expanded@),
{
    tilde(path)
}

/// Extract the base path from a full path (removing `/src` and everything after it).
pub fn base_path(path: &str) -> (base: String)
    ensures
        base@ == base_of(path@),
{
    let v = chars_of(path);
    let marker: Vec<char> = vec!['/', 's', 'r', 'c'];
    assert(marker@ =~= src_marker());
    match rfind(&v, &marker) {
        Some(i) => {
            assert(v@.subrange(0, i as int) =~= v@.take(i as int));
            string_of(&v, 0, i)
        },
        None => String::new(),
    }
}

/// The base path is a prefix of the path; where it is not empty, `/src` follows it there.
pub proof fn lemma_base_path_is_prefix(path: Seq<char>)
    ensures
        base_of(path).len() <= path.len(),
        path.take(base_of(path).len() as int) == base_of(path),
        last_occurrence(path, src_marker()) is Some ==> path.skip(base_of(path).len() as int).take(4) == src_marker(),
{
    crate::utils::text::lemma_rfind_upto(path, src_marker(), path.len() - 4);
    match last_occurrence(path, src_marker()) {
        Some(i) => {
            assert(path.take(i).len() == i);
            assert(path.take(i).take(i) =~= path.take(i));
            assert(path.skip(i).take(4) =~= path.subrange(i, i + 4));
        },
        None => {
            assert(path.take(0) =~= Seq::<char>::empty());
        },
    }
}

} // verus!
