//! The first word of a string: the characters before its first space.
use vstd::prelude::*;

verus! {

/// `w` is the first word of `s`: a prefix of `s` that holds no space and
/// that is followed by a space or by the end of `s`.
pub open spec fn is_first_word(s: Seq<char>, w: Seq<char>) -> bool {
    &&& w.len() <= s.len()
    &&& w == s.subrange(0, w.len() as int)
    &&& forall|j: int| 0 <= j < w.len() ==> w[j] != ' '
    &&& w.len() < s.len() ==> s[w.len() as int] == ' '
}

/// Returns the part of `s` before its first space, or all of `s` where it
/// holds no space.
pub fn first_word(s: &String) -> (r: &str)
    ensures
        is_first_word(s@, r@),
{
    mod_first_word(s.as_str())
}

/// Returns the part of `s` before its first space, or all of `s` where it
/// holds no space.
pub fn mod_first_word(s: &str) -> (r: &str)
    ensures
        is_first_word(s@, r@),
{
    let n: usize = s.unicode_len();
    let mut i: usize = 0;
    while i < n
        invariant
            n == s@.len(),
            i <= n,
            forall|j: int| 0 <= j < i ==> s@[j] != ' ',
        decreases n - i,
    {
        if s.get_char(i) == ' ' {
            return s.substring_char(0, i);
        }
        i = i + 1;
    }
    assert(s@.subrange(0, n as int) =~= s@);
    s
}

} // verus!
