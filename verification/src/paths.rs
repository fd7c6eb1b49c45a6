//! Text helpers for source paths: extension stripping, base names, and
//! directory joining. All of them are defined over the character sequence of
//! the path, so the specification of the planner can speak of them exactly.

use vstd::prelude::*;
use vstd::string::StrSliceExecFns;
use vstd::string::StringExecFns;

verus! {

/// The position of the last occurrence of `c` in `s`, or `-1` when `c` does
/// not occur.
pub open spec fn last_index_of(s: Seq<char>, c: char) -> int
    decreases s.len(),
{
    if s.len() == 0 {
        -1
    } else if s[s.len() - 1] == c {
        s.len() - 1
    } else {
        last_index_of(s.drop_last(), c)
    }
}

proof fn lemma_last_index_of_none(s: Seq<char>, c: char)
    requires
        forall|j: int| 0 <= j < s.len() ==> s[j] != c,
    ensures
        last_index_of(s, c) == -1,
    decreases s.len(),
{
    if s.len() > 0 {
        lemma_last_index_of_none(s.drop_last(), c);
    }
}

proof fn lemma_last_index_of_at(s: Seq<char>, c: char, i: int)
    requires
        0 <= i < s.len(),
        s[i] == c,
        forall|j: int| i < j < s.len() ==> s[j] != c,
    ensures
        last_index_of(s, c) == i,
    decreases s.len(),
{
    if i < s.len() - 1 {
        lemma_last_index_of_at(s.drop_last(), c, i);
    }
}

/// `last_index_of` always lies in `[-1, s.len())`, and when it is not `-1`
/// it points at an occurrence of `c` with none after it.
pub proof fn lemma_last_index_of_bounds(s: Seq<char>, c: char)
    ensures
        -1 <= last_index_of(s, c) < s.len(),
        last_index_of(s, c) >= 0 ==> s[last_index_of(s, c)] == c,
        forall|j: int| last_index_of(s, c) < j < s.len() ==> s[j] != c,
    decreases s.len(),
{
    if s.len() > 0 && s[s.len() - 1] != c {
        lemma_last_index_of_bounds(s.drop_last(), c);
        assert(forall|j: int| last_index_of(s, c) < j < s.len() - 1 ==> s.drop_last()[j] == s[j]);
    }
}

/// The position of the last occurrence of `c` in `s`, if there is one.
fn rfind_char(s: &str, c: char) -> (r: Option<usize>)
    ensures
        match r {
            Some(i) => i == last_index_of(s@, c),
            None => last_index_of(s@, c) == -1,
        },
{
    let n = s.unicode_len();
    let mut i = n;
    while i > 0
        invariant
            0 <= i <= n,
            n == s@.len(),
            forall|j: int| i <= j < s@.len() ==> s@[j] != c,
        decreases i,
    {
        i = i - 1;
        if s.get_char(i) == c {
            proof {
                lemma_last_index_of_at(s@, c, i as int);
            }
            return Some(i);
        }
    }
    proof {
        lemma_last_index_of_none(s@, c);
    }
    None
}

/// `s` with its file extension removed: everything before the last `.`, or
/// the empty text when `s` holds no `.` at all.
pub open spec fn without_extension(s: Seq<char>) -> Seq<char> {
    let i = last_index_of(s, '.');
    if i < 0 {
        Seq::empty()
    } else {
        s.take(i)
    }
}

/// Remove the file extension of a path.
pub fn strip_extension(s: &str) -> (r: String)
    ensures
        r@ == without_extension(s@),
{
    proof {
        lemma_last_index_of_bounds(s@, '.');
    }
    match rfind_char(s, '.') {
        None => String::new(),
        Some(i) => s.substring_char(0, i).to_owned(),
    }
}

/// The base name of a path: everything after the last `/`, or the whole
/// text when it holds no `/` at all.
pub open spec fn base_name_of(s: Seq<char>) -> Seq<char> {
    s.subrange(last_index_of(s, '/') + 1, s.len() as int)
}

/// Strip the directory components of a path, keeping the base name only.
pub fn base_name(s: &str) -> (r: String)
    ensures
        r@ == base_name_of(s@),
{
    proof {
        lemma_last_index_of_bounds(s@, '/');
    }
    let n = s.unicode_len();
    match rfind_char(s, '/') {
        None => {
            proof {
                assert(base_name_of(s@) =~= s@);
            }
            s.to_owned()
        },
        Some(i) => s.substring_char(i + 1, n).to_owned(),
    }
}

/// `dir` and `file` joined with a single `/` between them.
pub open spec fn joined_path(dir: Seq<char>, file: Seq<char>) -> Seq<char> {
    dir + "/"@ + file
}

/// Join a directory and a file name with a `/`.
pub fn join_path(dir: &str, file: &str) -> (r: String)
    ensures
        r@ == joined_path(dir@, file@),
{
    let mut r = dir.to_owned();
    r.append("/");
    r.append(file);
    r
}

} // verus!
