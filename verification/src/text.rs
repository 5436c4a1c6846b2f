//! Exact comparison of strings, and the views that the contracts speak of.

use vstd::prelude::*;
use vstd::utf8::{encode_utf8, encode_utf8_decode_utf8};

verus! {

/// The arguments as texts, in their order.
pub open spec fn texts_of(args: Seq<String>) -> Seq<Seq<char>> {
    Seq::new(args.len(), |i: int| args[i]@)
}

/// The texts that occur in a list of tokens.
pub open spec fn token_set(tokens: Seq<&str>) -> Set<Seq<char>> {
    Set::new(|t: Seq<char>| exists|j: int| 0 <= j < tokens.len() && (#[trigger] tokens[j])@ == t)
}

/// Whether two strings hold the same characters: case-sensitive, with no
/// normalization of any kind.
pub fn same_text(a: &str, b: &str) -> (same: bool)
    ensures
        same == (a@ == b@),
{
    let x = a.as_bytes();
    let y = b.as_bytes();
    proof {
        encode_utf8_decode_utf8(a@);
        encode_utf8_decode_utf8(b@);
    }
    if x.len() != y.len() {
        return false;
    }
    let mut i: usize = 0;
    while i < x.len()
        invariant
            i <= x.len(),
            x.len() == y.len(),
            x@ == encode_utf8(a@),
            y@ == encode_utf8(b@),
            forall|k: int| 0 <= k < i ==> x@[k] == y@[k],
        decreases x.len() - i,
    {
        if x[i] != y[i] {
            return false;
        }
        i += 1;
    }
    assert(x@ =~= y@);
    true
}

/// Whether `arg` is, exactly, one of `tokens`.
pub fn is_listed(arg: &str, tokens: &[&str]) -> (listed: bool)
    ensures
        listed == token_set(tokens@).contains(arg@),
{
    let mut j: usize = 0;
    while j < tokens.len()
        invariant
            j <= tokens.len(),
            forall|k: int| 0 <= k < j ==> (#[trigger] tokens@[k])@ != arg@,
        decreases tokens.len() - j,
    {
        if same_text(arg, tokens[j]) {
            return true;
        }
        j += 1;
    }
    false
}

} // verus!
