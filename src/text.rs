use std::collections::hash_map::DefaultHasher;
use std::hash::Hasher;
use vstd::prelude::*;
use vstd::std_specs::hash::DefaultHasherAdditionalSpecFns;
use vstd::utf8::encode_utf8;

verus! {

/// The hash of an identifier's text: a SipHash state (as `DefaultHasher::new`
/// gives it) fed the UTF-8 bytes of the text in one write, then finished.
/// It depends on the text alone.
pub open spec fn text_hash(s: Seq<char>) -> u64 {
    DefaultHasher::spec_finish(seq![encode_utf8(s)])
}

/// Hashes a text as `text_hash` describes.
pub fn hash_text(s: &str) -> (r: u64)
    ensures
        r == text_hash(s@),
{
    let mut h = DefaultHasher::new();
    h.write(s.as_bytes());
    let r = h.finish();
    proof {
        assert(h@ == seq![encode_utf8(s@)]);
    }
    r
}

} // verus!
