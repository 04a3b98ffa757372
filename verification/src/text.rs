//! Small helpers over strings used throughout the wire-format code.

use vstd::prelude::*;

verus! {

/// Character-for-character equality of two string slices.
pub fn str_eq(a: &str, b: &str) -> (r: bool)
    ensures
        r == (a@ == b@),
{
    let a_s: String = a.to_owned();
    let b_s: String = b.to_owned();
    a_s == b_s
}

/// Whether a string slice is empty.
pub fn str_is_empty(s: &str) -> (r: bool)
    ensures
        r == (s@.len() == 0),
{
    let n = s.unicode_len();
    if n == 0 {
        proof {
            assert(s@ =~= Seq::<char>::empty());
        }
        true
    } else {
        false
    }
}

} // verus!
