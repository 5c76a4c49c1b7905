//! Strings read and changed through references.
use vstd::prelude::*;
use crate::ownership::byte_len;

verus! {

/// Returns the length of `s` in bytes.
pub fn calculate_lenght(s: &String) -> (r: usize)
    ensures
        r == byte_len(s@),
{
    s.as_str().len()
}

/// Appends ` world!` to `sstring`.
pub fn change(sstring: &mut String)
    ensures
        final(sstring)@ == old(sstring)@ + " world!"@,
{
    sstring.append(" world!");
}

} // verus!
