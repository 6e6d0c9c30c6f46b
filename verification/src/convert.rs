//! Marshaling checks for text crossing the boundary into the host.
//!
//! The host takes C-style strings, so text holding an interior null byte
//! cannot be handed over; the attempt fails with a string-conversion error
//! before any host function is invoked. In UTF-8 a zero byte occurs exactly
//! where the null character occurs, so the check is over characters.

use vstd::prelude::*;

verus! {

/// The text holds a null character somewhere, and so cannot be marshaled
/// into the host's C-style string representation.
pub open spec fn has_interior_nul(s: Seq<char>) -> bool {
    exists|i: int| 0 <= i < s.len() && s[i] == '\0'
}

/// Scan text for an interior null character.
pub fn text_is_clean(s: &str) -> (r: bool)
    ensures
        r == !has_interior_nul(s@),
{
    let n: usize = s.unicode_len();
    let mut i: usize = 0;
    while i < n
        invariant
            n == s@.len(),
            0 <= i <= n,
            forall|j: int| 0 <= j < i ==> s@[j] != '\0',
        decreases n - i,
    {
        if s.get_char(i) == '\0' {
            return false;
        }
        i = i + 1;
    }
    true
}

} // verus!
