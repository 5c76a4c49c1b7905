//! Strings handed into and out of functions by value.
use vstd::prelude::*;

verus! {

/// The number of bytes that `s` takes in UTF-8, as `len` reports it.
pub open spec fn byte_len(s: Seq<char>) -> usize {
    vstd::utf8::encode_utf8(s).len() as usize
}

/// Returns a new string holding `hello`.
pub fn gives_ownership() -> (r: String)
    ensures
        r@ == "hello"@,
{
    let some_string = String::from_str("hello");
    some_string
}

/// Returns the string it was given.
pub fn takes_and_gives_back(a_string: String) -> (r: String)
    ensures
        r == a_string,
{
    a_string
}

/// Returns the string it was given together with its length in bytes.
pub fn calculate_lenght(s: String) -> (r: (String, usize))
    ensures
        r.0 == s,
        r.1 == byte_len(s@),
{
    let lenght = s.as_str().len();
    (s, lenght)
}

} // verus!
