//! Names derived from repository URLs and source file paths.

use vstd::prelude::*;
use crate::utils::text::{
    chars_of, ends_with, find, first_occurrence, last_occurrence, lemma_after_last_char, occurs_at,
    replace_char, rfind, string_of,
};

verus! {

/// The suffix that marks a Git repository URL.
pub open spec fn git_suffix() -> Seq<char> {
    seq!['.', 'g', 'i', 't']
}

/// The marker of a project's source directory inside a path.
pub open spec fn src_marker() -> Seq<char> {
    seq!['/', 's', 'r', 'c']
}

/// `s` with `pat` removed from its end as many times as it stands there.
pub open spec fn trim_end_all(s: Seq<char>, pat: Seq<char>) -> Seq<char>
    decreases s.len(),
{
    if pat.len() > 0 && ends_with(s, pat) {
        trim_end_all(s.take(s.len() - pat.len()), pat)
    } else {
        s
    }
}

/// What follows the last `sep` in `s`, or all of `s` where there is no `sep`.
pub open spec fn last_segment(s: Seq<char>, sep: char) -> Seq<char> {
    match last_occurrence(s, seq![sep]) {
        Some(i) => s.skip(i + 1),
        None => s,
    }
}

/// The repository name of a Git URL: its last `/`-separated segment once every
/// trailing `.git` is removed.
pub open spec fn repo_name(url: Seq<char>) -> Seq<char> {
    last_segment(trim_end_all(url, git_suffix()), '/')
}

/// `t` without what follows its last `.` (and without that `.`).
pub open spec fn strip_extension(t: Seq<char>) -> Seq<char> {
    match last_occurrence(t, seq!['.']) {
        Some(d) => t.take(d),
        None => t,
    }
}

/// The object name of a source file: the path from the first `/src` on, with `/`
/// replaced by `_` and the extension removed; empty where the path holds no `/src`.
pub open spec fn object_stem(file: Seq<char>) -> Seq<char> {
    match first_occurrence(file, src_marker()) {
        Some(i) => strip_extension(replace_char(file.skip(i), '/', '_')),
        None => Seq::empty(),
    }
}

fn take_chars(v: &Vec<char>, n: usize) -> (r: Vec<char>)
    requires
        n <= v@.len(),
    ensures
        r@ == v@.take(n as int),
{
    let mut r: Vec<char> = Vec::new();
    let mut i: usize = 0;
    while i < n
        invariant
            i <= n <= v@.len(),
            r@ == v@.take(i as int),
        decreases n - i,
    {
        r.push(v[i]);
        i = i + 1;
        assert(r@ =~= v@.take(i as int));
    }
    r
}

/// Get the repository name from a Git URL (without the `.git` suffix).
pub fn get_repo_name(url: &str) -> (name: String)
    ensures
        name@ == repo_name(url@),
{
    let v = chars_of(url);
    let pat: Vec<char> = vec!['.', 'g', 'i', 't'];
    let mut end: usize = v.len();
    assert(v@.take(end as int) =~= v@);
    while end >= 4 && crate::utils::text::matches_at(&v, &pat, end - 4)
        invariant
            pat@ == git_suffix(),
            end <= v@.len(),
            trim_end_all(url@, git_suffix()) == trim_end_all(v@.take(end as int), git_suffix()),
            v@ == url@,
        decreases end,
    {
        let ghost t = v@.take(end as int);
        assert(t.skip(t.len() - 4) =~= v@.subrange(end - 4, end as int));
        assert(t.take(t.len() - 4) =~= v@.take(end - 4));
        end = end - 4;
    }
    proof {
        let t = v@.take(end as int);
        if ends_with(t, git_suffix()) {
            assert(t.skip(t.len() - 4) =~= v@.subrange(end - 4, end as int));
            assert(occurs_at(v@, pat@, end - 4));
        }
        assert(trim_end_all(t, git_suffix()) == t);
    }
    let trimmed = take_chars(&v, end);
    let slash: Vec<char> = vec!['/'];
    assert(slash@ =~= seq!['/']);
    match rfind(&trimmed, &slash) {
        Some(i) => {
            assert(trimmed@.subrange(i + 1, trimmed@.len() as int) =~= trimmed@.skip(i + 1));
            string_of(&trimmed, i + 1, trimmed.len())
        },
        None => {
            assert(trimmed@.subrange(0, trimmed@.len() as int) =~= trimmed@);
            string_of(&trimmed, 0, trimmed.len())
        },
    }
}

/// Extract the object name of a source file: the part of the path from the first
/// `/src` on, with path separators replaced by underscores and the extension removed.
pub fn get_file_name(file: &str) -> (name: String)
    ensures
        name@ == object_stem(file@),
{
    let v = chars_of(file);
    let marker: Vec<char> = vec!['/', 's', 'r', 'c'];
    assert(marker@ =~= src_marker());
    match find(&v, &marker) {
        None => String::new(),
        Some(i) => {
            let mut w: Vec<char> = Vec::new();
            let mut k: usize = i;
            while k < v.len()
                invariant
                    i <= k <= v@.len(),
                    w@ == replace_char(v@.skip(i as int), '/', '_').take(k - i),
                decreases v@.len() - k,
            {
                let c = v[k];
                if c == '/' {
                    w.push('_');
                } else {
                    w.push(c);
                }
                k = k + 1;
                assert(w@ =~= replace_char(v@.skip(i as int), '/', '_').take(k - i));
            }
            assert(w@ =~= replace_char(v@.skip(i as int), '/', '_'));
            let dot: Vec<char> = vec!['.'];
            assert(dot@ =~= seq!['.']);
            match rfind(&w, &dot) {
                Some(d) => {
                    assert(w@.subrange(0, d as int) =~= w@.take(d as int));
                    string_of(&w, 0, d)
                },
                None => {
                    assert(w@.subrange(0, w@.len() as int) =~= w@);
                    string_of(&w, 0, w.len())
                },
            }
        },
    }
}

/// An object name never holds a `/`: every separator became `_`.
pub proof fn lemma_object_stem_has_no_slash(file: Seq<char>)
    ensures
        !object_stem(file).contains('/'),
{
    match first_occurrence(file, src_marker()) {
        Some(i) => {
            let t = replace_char(file.skip(i), '/', '_');
            assert(!t.contains('/')) by {
                assert forall|k: int| 0 <= k < t.len() implies #[trigger] t[k] != '/' by {}
            }
            match last_occurrence(t, seq!['.']) {
                Some(d) => {
                    crate::utils::text::lemma_rfind_upto(t, seq!['.'], t.len() - 1);
                    assert forall|k: int| 0 <= k < t.take(d).len() implies #[trigger] t.take(d)[k]
                        != '/' by {
                        assert(t.take(d)[k] == t[k]);
                    }
                },
                None => {},
            }
        },
        None => {},
    }
}

/// An object name is empty (the path holds no `/src`) or begins with `_src`.
pub proof fn lemma_object_stem_starts_with_src(file: Seq<char>)
    ensures
        object_stem(file).len() == 0 || object_stem(file).take(4) == seq!['_', 's', 'r', 'c'],
{
    crate::utils::text::lemma_find_from(file, src_marker(), 0);
    match first_occurrence(file, src_marker()) {
        Some(i) => {
            let t = replace_char(file.skip(i), '/', '_');
            assert(file.subrange(i, i + 4) == src_marker());
            assert(file.skip(i)[0] == '/' && file.skip(i)[1] == 's' && file.skip(i)[2] == 'r'
                && file.skip(i)[3] == 'c') by {
                assert(file.skip(i)[0] == file.subrange(i, i + 4)[0]);
                assert(file.skip(i)[1] == file.subrange(i, i + 4)[1]);
                assert(file.skip(i)[2] == file.subrange(i, i + 4)[2]);
                assert(file.skip(i)[3] == file.subrange(i, i + 4)[3]);
            }
            assert(t.take(4) =~= seq!['_', 's', 'r', 'c']);
            match last_occurrence(t, seq!['.']) {
                Some(d) => {
                    crate::utils::text::lemma_rfind_upto(t, seq!['.'], t.len() - 1);
                    crate::utils::text::lemma_occurs_single(t, '.', d);
                    assert(d >= 4);
                    assert(t.take(d).take(4) =~= t.take(4));
                },
                None => {},
            }
        },
        None => {},
    }
}

/// A repository name never holds a `/`.
pub proof fn lemma_repo_name_has_no_slash(url: Seq<char>)
    ensures
        !repo_name(url).contains('/'),
{
    lemma_after_last_char(trim_end_all(url, git_suffix()), '/');
}

} // verus!
