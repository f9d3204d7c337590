//! What a path says of the file it names: its final component and the
//! extension of that name.

use vstd::prelude::*;

verus! {

/// The position of the last `c` in `s`, or -1 where `s` holds none.
pub open spec fn last_index(s: Seq<char>, c: char) -> int
    decreases s.len(),
{
    if s.len() == 0 {
        -1
    } else if s.last() == c {
        s.len() - 1
    } else {
        last_index(s.drop_last(), c)
    }
}

/// The final component of a path: what follows its last `/`, the whole path
/// where it has none.
pub open spec fn file_name(path: Seq<char>) -> Seq<char> {
    path.subrange(last_index(path, '/') + 1, path.len() as int)
}

/// The extension of a path: what follows the last `.` of its final component,
/// empty where that name has no `.`.
pub open spec fn extension_of(path: Seq<char>) -> Seq<char> {
    let name = file_name(path);
    if last_index(name, '.') < 0 {
        Seq::empty()
    } else {
        name.subrange(last_index(name, '.') + 1, name.len() as int)
    }
}

/// `last_index` is either -1, and then `c` is nowhere in `s`, or the position
/// of a `c` with no `c` behind it.
pub proof fn lemma_last_index(s: Seq<char>, c: char)
    ensures
        -1 <= last_index(s, c) < s.len(),
        last_index(s, c) >= 0 ==> s[last_index(s, c)] == c,
        forall|j: int| last_index(s, c) < j < s.len() ==> s[j] != c,
    decreases s.len(),
{
    if s.len() > 0 && s.last() != c {
        lemma_last_index(s.drop_last(), c);
        assert forall|j: int| last_index(s, c) < j < s.len() implies s[j] != c by {
            if j < s.len() - 1 {
                assert(s.drop_last()[j] == s[j]);
            }
        }
    }
}

/// A position that holds `c` and has no `c` behind it is `last_index`.
pub proof fn lemma_last_index_unique(s: Seq<char>, c: char, i: int)
    requires
        -1 <= i < s.len(),
        i >= 0 ==> s[i] == c,
        forall|j: int| i < j < s.len() ==> s[j] != c,
    ensures
        last_index(s, c) == i,
{
    lemma_last_index(s, c);
}

/// The position of the last `c` among the characters of `s` from `from` on,
/// counted from the start of `s`; `None` where there is none.
fn find_last(s: &str, from: usize, c: char) -> (r: Option<usize>)
    requires
        from <= s@.len(),
    ensures
        match r {
            Some(i) => from <= i < s@.len() && i - from == last_index(
                s@.subrange(from as int, s@.len() as int),
                c,
            ),
            None => last_index(s@.subrange(from as int, s@.len() as int), c) == -1,
        },
{
    let n: usize = s.unicode_len();
    let ghost tail = s@.subrange(from as int, n as int);
    let mut i: usize = n;
    while i > from
        invariant
            n == s@.len(),
            from <= i <= n,
            tail == s@.subrange(from as int, n as int),
            forall|j: int| i - from <= j < tail.len() ==> tail[j] != c,
        decreases i,
    {
        i -= 1;
        if s.get_char(i) == c {
            proof {
                lemma_last_index_unique(tail, c, i - from);
            }
            return Some(i);
        }
    }
    proof {
        lemma_last_index_unique(tail, c, -1);
    }
    None
}

/// Calls `std::path::Path::is_file` on the path that `path` spells. The answer
/// is what the file system holds at that moment, so nothing is stated of it.
#[verifier::external_body]
pub(crate) fn names_regular_file(path: &str) -> (r: bool) {
    std::path::Path::new(path).is_file()
}

/// The extension of the file that `path` names, as an owned string.
pub fn extension(path: &str) -> (r: String)
    ensures
        r@ == extension_of(path@),
{
    let n: usize = path.unicode_len();
    let start: usize = match find_last(path, 0, '/') {
        Some(i) => i + 1,
        None => 0,
    };
    assert(path@.subrange(0, n as int) =~= path@);
    assert(start == last_index(path@, '/') + 1);
    match find_last(path, start, '.') {
        Some(i) => {
            let ext = path.substring_char(i + 1, n);
            assert(ext@ =~= extension_of(path@));
            String::from_str(ext)
        },
        None => String::new(),
    }
}

} // verus!
