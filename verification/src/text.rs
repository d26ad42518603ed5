//! Comparisons on string slices, stated over their character sequences.

use vstd::prelude::*;
use vstd::utf8::encode_utf8;
use vstd::utf8::encode_utf8_decode_utf8;
use vstd::string::StrSliceExecFns;

verus! {

/// Two character sequences with the same UTF-8 encoding are the same sequence.
pub proof fn lemma_encoding_is_injective(a: Seq<char>, b: Seq<char>)
    requires
        encode_utf8(a) == encode_utf8(b),
    ensures
        a == b,
{
    encode_utf8_decode_utf8(a);
    encode_utf8_decode_utf8(b);
}

/// Whether two string slices hold the same characters.
pub fn str_eq(a: &str, b: &str) -> (same: bool)
    ensures
        same == (a@ == b@),
{
    let x = a.as_bytes();
    let y = b.as_bytes();
    if x.len() != y.len() {
        return false;
    }
    let n: usize = x.len();
    let mut i: usize = 0;
    while i < n
        invariant
            i <= n,
            n == x@.len(),
            n == y@.len(),
            x@ == encode_utf8(a@),
            y@ == encode_utf8(b@),
            forall|j: int| 0 <= j < i ==> x@[j] == y@[j],
        decreases n - i,
    {
        if x[i] != y[i] {
            return false;
        }
        i += 1;
    }
    proof {
        assert(x@ =~= y@);
        lemma_encoding_is_injective(a@, b@);
    }
    true
}

/// Whether `text` begins with the characters of `prefix`.
pub fn starts_with(text: &str, prefix: &str) -> (found: bool)
    ensures
        found == prefix@.is_prefix_of(text@),
{
    let n: usize = prefix.unicode_len();
    if text.unicode_len() < n {
        return false;
    }
    let mut i: usize = 0;
    while i < n
        invariant
            i <= n,
            n == prefix@.len(),
            n <= text@.len(),
            forall|j: int| 0 <= j < i ==> text@[j] == prefix@[j],
        decreases n - i,
    {
        if text.get_char(i) != prefix.get_char(i) {
            assert(text@.subrange(0, n as int)[i as int] != prefix@[i as int]);
            return false;
        }
        i += 1;
    }
    assert(text@.subrange(0, n as int) =~= prefix@);
    true
}

} // verus!
