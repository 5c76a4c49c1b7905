//! String slices returned from borrowed arguments.
use vstd::prelude::*;
use crate::ownership::byte_len;

verus! {

/// Returns the longer of the two strings by length in bytes, `str2` when
/// they are equally long.
pub fn longest<'a>(str1: &'a str, str2: &'a str) -> (r: &'a str)
    ensures
        r@ == if byte_len(str1@) > byte_len(str2@) {
            str1@
        } else {
            str2@
        },
{
    if str1.len() > str2.len() {
        str1
    } else {
        str2
    }
}

/// Returns the first string; the second is only borrowed.
pub fn longest2<'a>(x: &'a str, _y: &str) -> (r: &'a str)
    ensures
        r@ == x@,
{
    x
}

} // verus!
