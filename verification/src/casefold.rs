//! ASCII case folding for the canonical string forms of the enumerations.
//!
//! Every enumeration value has a canonical uppercase-with-underscores string
//! form, and strings are parsed case-insensitively at serialization
//! boundaries. Folding is specified at the level of character codes: two
//! strings match when they have the same length and, position by position,
//! the same code once ASCII lowercase letters are raised to uppercase.

use vstd::prelude::*;

verus! {

/// The character code of `c` with an ASCII lowercase letter raised to
/// its uppercase counterpart; every other character is left as it is.
pub open spec fn folded_code(c: char) -> u32 {
    if 97 <= c as u32 && c as u32 <= 122 {
        (c as u32 - 32) as u32
    } else {
        c as u32
    }
}

/// Case-insensitive equality of two character sequences: equal lengths and
/// equal folded codes at every position.
pub open spec fn fold_eq(a: Seq<char>, b: Seq<char>) -> bool {
    &&& a.len() == b.len()
    &&& forall|i: int| 0 <= i < a.len() ==> folded_code(a[i]) == folded_code(b[i])
}

/// The folded code of one character, as executable code.
fn fold_char(c: char) -> (u: u32)
    ensures
        u == folded_code(c),
{
    let x = c as u32;
    if 97 <= x && x <= 122 {
        x - 32
    } else {
        x
    }
}

/// Whether `a` and `b` are equal up to ASCII case.
pub fn eq_ignore_ascii_case(a: &str, b: &str) -> (r: bool)
    ensures
        r == fold_eq(a@, b@),
{
    let alen = a.unicode_len();
    let blen = b.unicode_len();
    if alen != blen {
        return false;
    }
    let mut i: usize = 0;
    while i < alen
        invariant
            alen == a@.len(),
            blen == b@.len(),
            alen == blen,
            i <= alen,
            forall|j: int| 0 <= j < i ==> folded_code(a@[j]) == folded_code(b@[j]),
        decreases alen - i,
    {
        let ca = a.get_char(i);
        let cb = b.get_char(i);
        if fold_char(ca) != fold_char(cb) {
            return false;
        }
        i += 1;
    }
    true
}

} // verus!
