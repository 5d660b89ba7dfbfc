//! Small verified string helpers: exact and ASCII-case-insensitive equality
//! of character sequences, used by the request validators.
use vstd::prelude::*;
use vstd::string::StrSliceExecFns;

verus! {

/// The code point of `c` with an ASCII upper-case letter folded to lower case.
pub open spec fn lower_u32(c: char) -> u32 {
    if 65 <= c as u32 && c as u32 <= 90 {
        (c as u32 + 32) as u32
    } else {
        c as u32
    }
}

/// Character sequences of equal length whose characters agree up to ASCII case.
pub open spec fn eq_ignore_ascii_case(a: Seq<char>, b: Seq<char>) -> bool {
    &&& a.len() == b.len()
    &&& forall|i: int| 0 <= i < a.len() ==> lower_u32(#[trigger] a[i]) == lower_u32(b[i])
}

/// A decimal digit, `'0'` through `'9'`.
pub open spec fn is_ascii_digit_char(c: char) -> bool {
    48 <= c as u32 <= 57
}

fn lower_of_char(c: char) -> (r: u32)
    ensures
        r == lower_u32(c),
{
    let u: u32 = c as u32;
    if 65 <= u && u <= 90 {
        u + 32
    } else {
        u
    }
}

/// Exact string equality, decided character by character.
pub fn str_eq(a: &str, b: &str) -> (r: bool)
    ensures
        r == (a@ == b@),
{
    let alen = a.unicode_len();
    let blen = b.unicode_len();
    if alen != blen {
        return false;
    }
    let mut i: usize = 0;
    while i < alen
        invariant
            alen == a@.len(),
            blen == b@.len(),
            alen == blen,
            0 <= i <= alen,
            forall|j: int| 0 <= j < i ==> a@[j] == b@[j],
        decreases alen - i,
    {
        let ca = a.get_char(i);
        let cb = b.get_char(i);
        if ca != cb {
            proof {
                if a@ == b@ {
                    assert(a@[i as int] == b@[i as int]);
                }
            }
            return false;
        }
        i = i + 1;
    }
    proof {
        assert(a@ =~= b@);
    }
    true
}

/// String equality up to ASCII case, decided character by character.
pub fn str_eq_ignore_ascii_case(a: &str, b: &str) -> (r: bool)
    ensures
        r == eq_ignore_ascii_case(a@, b@),
{
    let alen = a.unicode_len();
    let blen = b.unicode_len();
    if alen != blen {
        return false;
    }
    let mut i: usize = 0;
    while i < alen
        invariant
            alen == a@.len(),
            blen == b@.len(),
            alen == blen,
            0 <= i <= alen,
            forall|j: int| 0 <= j < i ==> lower_u32(#[trigger] a@[j]) == lower_u32(b@[j]),
        decreases alen - i,
    {
        let ca = lower_of_char(a.get_char(i));
        let cb = lower_of_char(b.get_char(i));
        if ca != cb {
            return false;
        }
        i = i + 1;
    }
    true
}

} // verus!
