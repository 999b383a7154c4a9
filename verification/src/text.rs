//! Comparison of text by content.

use vstd::prelude::*;
use vstd::utf8::encode_utf8;
use vstd::utf8::encode_utf8_decode_utf8;

verus! {

/// Whether two string slices hold the same characters.
///
/// The comparison walks the UTF-8 bytes; since encoding is injective, equal
/// bytes mean equal characters.
pub fn str_eq(a: &str, b: &str) -> (same: bool)
    ensures
        same == (a@ == b@),
{
    let x = a.as_bytes();
    let y = b.as_bytes();
    proof {
        encode_utf8_decode_utf8(a@);
        encode_utf8_decode_utf8(b@);
    }
    if x.len() != y.len() {
        return false;
    }
    let mut i: usize = 0;
    while i < x.len()
        invariant
            i <= x.len(),
            x.len() == y.len(),
            x@ == encode_utf8(a@),
            y@ == encode_utf8(b@),
            forall|j: int| 0 <= j < i ==> x@[j] == y@[j],
        decreases x.len() - i,
    {
        if x[i] != y[i] {
            assert(x@[i as int] != y@[i as int]);
            return false;
        }
        i += 1;
    }
    assert(x@ =~= y@);
    true
}

/// Whether a name carries the " ex" suffix that marks the stronger variant
/// of a creature.
pub open spec fn has_ex_suffix(name: Seq<char>) -> bool {
    let n = name.len() as int;
    n >= 3 && name[n - 3] == ' ' && name[n - 2] == 'e' && name[n - 1] == 'x'
}

/// Executable form of [`has_ex_suffix`].
pub fn ends_with_ex(name: &str) -> (yes: bool)
    ensures
        yes == has_ex_suffix(name@),
{
    let n: usize = name.unicode_len();
    if n < 3 {
        return false;
    }
    name.get_char(n - 3) == ' ' && name.get_char(n - 2) == 'e' && name.get_char(n - 1) == 'x'
}

} // verus!
