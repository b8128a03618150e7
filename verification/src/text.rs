//! Small verified text helpers shared by the codec and the name-service
//! types.

use vstd::prelude::*;

verus! {

/// Character-by-character string comparison, proved equivalent to equality
/// of the two character sequences.
pub fn str_equal(left: &str, right: &str) -> (equal: bool)
    ensures
        equal == (left@ == right@),
{
    let left_len = left.unicode_len();
    let right_len = right.unicode_len();
    if left_len != right_len {
        return false;
    }
    let mut i: usize = 0;
    while i < left_len
        invariant
            i <= left_len,
            left_len == left@.len(),
            right_len == right@.len(),
            left_len == right_len,
            forall|j: int| 0 <= j < i ==> left@[j] == right@[j],
        decreases left_len - i,
    {
        if left.get_char(i) != right.get_char(i) {
            return false;
        }
        i += 1;
    }
    proof {
        assert(left@ =~= right@);
    }
    true
}

} // verus!
