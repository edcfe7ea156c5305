use vstd::prelude::*;

verus! {

/// `raw` begins with the bytes of `sig` (and so is at least as long).
pub open spec fn has_prefix(raw: Seq<u8>, sig: Seq<u8>) -> bool {
    sig.len() <= raw.len() && raw.subrange(0, sig.len() as int) == sig
}

/// `raw` holds the bytes of `sig` starting at offset `at`.
pub open spec fn holds_at(raw: Seq<u8>, at: int, sig: Seq<u8>) -> bool {
    0 <= at && at + sig.len() <= raw.len() && raw.subrange(at, at + sig.len()) == sig
}

/// Tests whether `raw` holds `sig` at offset `at`; a window too short for it does not.
pub fn bytes_at(raw: &[u8], at: usize, sig: &[u8]) -> (r: bool)
    ensures
        r == holds_at(raw@, at as int, sig@),
{
    if at > raw.len() || sig.len() > raw.len() - at {
        return false;
    }
    let mut i: usize = 0;
    while i < sig.len()
        invariant
            at + sig@.len() <= raw@.len(),
            at + sig.len() <= raw.len(),
            0 <= i <= sig@.len(),
            forall|k: int| 0 <= k < i ==> raw@[at + k] == sig@[k],
        decreases sig@.len() - i,
    {
        if raw[at + i] != sig[i] {
            assert(raw@.subrange(at as int, at + sig@.len())[i as int] != sig@[i as int]);
            return false;
        }
        i = i + 1;
    }
    assert(raw@.subrange(at as int, at + sig@.len()) =~= sig@);
    true
}

/// Tests whether `raw` begins with `sig`.
pub fn starts_with(raw: &[u8], sig: &[u8]) -> (r: bool)
    ensures
        r == has_prefix(raw@, sig@),
{
    bytes_at(raw, 0, sig)
}

} // verus!
