use vstd::prelude::*;

use crate::std_path::{self, file_name_of};

verus! {

/// The index of the last `.` among the first `k` characters of `n`, or -1
/// when there is none.
pub open spec fn last_dot_before(n: Seq<char>, k: int) -> int
    decreases k,
{
    if k <= 0 {
        -1
    } else if n[k - 1] == '.' {
        k - 1
    } else {
        last_dot_before(n, k - 1)
    }
}

/// `last_dot_before` names a `.` before `k`, and no `.` stands after it.
pub proof fn lemma_last_dot_before(n: Seq<char>, k: int)
    requires
        0 <= k <= n.len(),
    ensures
        -1 <= last_dot_before(n, k) < k,
        last_dot_before(n, k) >= 0 ==> n[last_dot_before(n, k)] == '.',
        forall|i: int| last_dot_before(n, k) < i < k ==> n[i] != '.',
    decreases k,
{
    if k > 0 {
        lemma_last_dot_before(n, k - 1);
    }
}

/// The index of the last `.` in `n`, or -1 when there is none.
pub open spec fn last_dot(n: Seq<char>) -> int {
    last_dot_before(n, n.len() as int)
}

/// The extension of a file name: what follows its final `.`. A name with
/// no `.`, or whose only `.` is its first character, has none (empty).
pub open spec fn ext_of_name(n: Seq<char>) -> Seq<char> {
    let j = last_dot(n);
    if j <= 0 {
        Seq::empty()
    } else {
        n.subrange(j + 1, n.len() as int)
    }
}

/// The stem of a file name: what precedes its final `.`, or the whole name
/// when it has no extension in the sense of `ext_of_name`.
pub open spec fn stem_of_name(n: Seq<char>) -> Seq<char> {
    let j = last_dot(n);
    if j <= 0 {
        n
    } else {
        n.subrange(0, j)
    }
}

/// The final component of a path, or empty when it has none.
pub open spec fn name_text(p: Seq<char>) -> Seq<char> {
    match file_name_of(p) {
        Some(n) => n,
        None => Seq::empty(),
    }
}

/// The extension of a path's final component, or empty when it has none.
pub open spec fn ext_text(p: Seq<char>) -> Seq<char> {
    match file_name_of(p) {
        Some(n) => ext_of_name(n),
        None => Seq::empty(),
    }
}

/// The stem of a path's final component, or empty when it has none.
pub open spec fn stem_text(p: Seq<char>) -> Seq<char> {
    match file_name_of(p) {
        Some(n) => stem_of_name(n),
        None => Seq::empty(),
    }
}

/// A `.` at `j` with none after it before `k` is the last one before `k`.
pub proof fn lemma_last_dot_at(n: Seq<char>, k: int, j: int)
    requires
        0 <= j < k <= n.len(),
        n[j] == '.',
        forall|i: int| j < i < k ==> n[i] != '.',
    ensures
        last_dot_before(n, k) == j,
    decreases k,
{
    if k - 1 > j {
        lemma_last_dot_at(n, k - 1, j);
    }
}

/// Where the final component of `p` has its last `.` at `j`, and `j` is not
/// its first character, the extension is what follows that `.`, and the
/// stem, a `.` and the extension together give back the final component.
pub proof fn law_ext_follows_last_dot(p: Seq<char>, j: int)
    requires
        file_name_of(p) is Some,
        0 < j < name_text(p).len(),
        name_text(p)[j] == '.',
        forall|i: int| j < i < name_text(p).len() ==> name_text(p)[i] != '.',
    ensures
        ext_text(p) == name_text(p).subrange(j + 1, name_text(p).len() as int),
        stem_text(p) == name_text(p).subrange(0, j),
        stem_text(p) + seq!['.'] + ext_text(p) == name_text(p),
{
    let n = name_text(p);
    lemma_last_dot_at(n, n.len() as int, j);
    assert(stem_text(p) + seq!['.'] + ext_text(p) =~= n);
}

/// A path without a final component has an empty name, extension and stem.
pub proof fn law_no_name_gives_empty_parts(p: Seq<char>)
    requires
        file_name_of(p) is None,
    ensures
        name_text(p) == Seq::<char>::empty(),
        ext_text(p) == Seq::<char>::empty(),
        stem_text(p) == Seq::<char>::empty(),
{
}

/// Where the last `.` of `n` stands, if anywhere.
pub fn find_last_dot(n: &str) -> (r: Option<usize>)
    ensures
        match r {
            Some(j) => j == last_dot(n@) && j < n@.len(),
            None => last_dot(n@) == -1,
        },
{
    proof {
        lemma_last_dot_before(n@, n@.len() as int);
    }
    let len = n.unicode_len();
    let mut k: usize = len;
    while k > 0
        invariant
            k <= len,
            len == n@.len(),
            last_dot(n@) == last_dot_before(n@, k as int),
        decreases k,
    {
        if n.get_char(k - 1) == '.' {
            return Some(k - 1);
        }
        k = k - 1;
    }
    None
}

/// The extension of a file name (see `ext_of_name`).
pub fn extension_of_name(n: &str) -> (r: &str)
    ensures
        r@ == ext_of_name(n@),
{
    proof {
        reveal_strlit("");
    }
    match find_last_dot(n) {
        Some(j) => {
            if j == 0 {
                ""
            } else {
                let len = n.unicode_len();
                n.substring_char(j + 1, len)
            }
        },
        None => "",
    }
}

/// The stem of a file name (see `stem_of_name`).
pub fn stem_of_file_name(n: &str) -> (r: &str)
    ensures
        r@ == stem_of_name(n@),
{
    match find_last_dot(n) {
        Some(j) => {
            if j == 0 {
                n
            } else {
                n.substring_char(0, j)
            }
        },
        None => n,
    }
}

/// The final component of path `p`, or `""`.
pub fn name_of(p: &str) -> (r: &str)
    ensures
        r@ == name_text(p@),
{
    proof {
        reveal_strlit("");
    }
    match std_path::file_name(p) {
        Some(n) => n,
        None => "",
    }
}

/// The extension of the final component of path `p`, or `""`.
pub fn ext_of(p: &str) -> (r: &str)
    ensures
        r@ == ext_text(p@),
{
    proof {
        reveal_strlit("");
    }
    match std_path::file_name(p) {
        Some(n) => extension_of_name(n),
        None => "",
    }
}

/// The stem of the final component of path `p`, or `""`.
pub fn stem_of(p: &str) -> (r: &str)
    ensures
        r@ == stem_text(p@),
{
    proof {
        reveal_strlit("");
    }
    match std_path::file_name(p) {
        Some(n) => stem_of_file_name(n),
        None => "",
    }
}

} // verus!
