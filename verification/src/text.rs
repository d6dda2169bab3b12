//! Small verified string utilities shared by the modules.

use vstd::prelude::*;

verus! {

/// Character-for-character equality of two string slices.
pub fn str_eq(a: &str, b: &str) -> (r: bool)
    ensures
        r == (a@ == b@),
{
    let na = a.unicode_len();
    let nb = b.unicode_len();
    if na != nb {
        proof {
            if a@ == b@ {
                assert(a@.len() == b@.len());
            }
        }
        return false;
    }
    let mut k: usize = 0;
    while k < na
        invariant
            na == a@.len(),
            nb == b@.len(),
            na == nb,
            k <= na,
            forall|m: int| 0 <= m < k ==> a@[m] == b@[m],
        decreases na - k,
    {
        if a.get_char(k) != b.get_char(k) {
            return false;
        }
        k = k + 1;
    }
    proof {
        assert(a@ =~= b@);
    }
    true
}

} // verus!
