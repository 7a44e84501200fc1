//! Blake3 fingerprints of states and of ordered sequences of fingerprints.

use vstd::prelude::*;
use crate::traits::{State, encoding_of};
use crate::types::{StateHash, lemma_hash_eq_from_view};

verus! {

/// The Blake3 digest of a byte string.
pub uninterp spec fn blake3_of(data: Seq<u8>) -> Seq<u8>;

/// Relies on `blake3::hash`: the 32-byte digest of the input, a function of
/// the bytes alone.
#[verifier::external_body]
fn blake3_digest(data: &[u8]) -> (r: [u8; 32])
    ensures
        r@ == blake3_of(data@),
{
    *blake3::hash(data).as_bytes()
}

/// The fingerprint of a state: Blake3 over its canonical encoding.
pub open spec fn state_digest<S: State>(s: S) -> Seq<u8> {
    blake3_of(encoding_of(s))
}

/// The bytes of a sequence of hashes, laid end to end.
pub open spec fn chain_bytes(hashes: Seq<StateHash>) -> Seq<u8>
    decreases hashes.len(),
{
    if hashes.len() == 0 {
        Seq::empty()
    } else {
        chain_bytes(hashes.drop_last()) + hashes.last().0@
    }
}

/// Computes state fingerprints and hash chains.
#[derive(Debug, Clone, Copy)]
pub struct StateHasher {}

impl StateHasher {
    pub fn new() -> (r: StateHasher) {
        StateHasher {  }
    }

    /// Blake3 over the state's canonical encoding.
    pub fn hash<S: State>(&self, state: &S) -> (r: StateHash)
        ensures
            r.0@ == state_digest(*state),
    {
        let bytes = state.encode();
        StateHash(blake3_digest(bytes.as_slice()))
    }

    /// Blake3 over the concatenation of the hashes, in order.
    pub fn hash_chain(&self, hashes: &[StateHash]) -> (r: StateHash)
        ensures
            r.0@ == blake3_of(chain_bytes(hashes@)),
    {
        let mut bytes: Vec<u8> = Vec::new();
        let mut i: usize = 0;
        while i < hashes.len()
            invariant
                i <= hashes@.len(),
                bytes@ == chain_bytes(hashes@.subrange(0, i as int)),
            decreases hashes@.len() - i,
        {
            let ghost before = bytes@;
            let h = &hashes[i];
            let mut j: usize = 0;
            while j < 32
                invariant
                    j <= 32,
                    bytes@ == before + h.0@.subrange(0, j as int),
                decreases 32 - j,
            {
                bytes.push(h.0[j]);
                j = j + 1;
                assert(bytes@ =~= before + h.0@.subrange(0, j as int));
            }
            assert(h.0@.subrange(0, 32) =~= h.0@);
            assert(hashes@.subrange(0, i + 1).drop_last() =~= hashes@.subrange(0, i as int));
            i = i + 1;
        }
        assert(hashes@.subrange(0, i as int) =~= hashes@);
        StateHash(blake3_digest(bytes.as_slice()))
    }

    /// Blake3 over the previous chain hash followed by the new hash.
    pub fn extend_chain(&self, previous_chain_hash: &StateHash, new_hash: &StateHash) -> (r:
        StateHash)
        ensures
            r.0@ == blake3_of(previous_chain_hash.0@ + new_hash.0@),
    {
        let mut bytes: Vec<u8> = Vec::new();
        let mut j: usize = 0;
        while j < 32
            invariant
                j <= 32,
                bytes@ == previous_chain_hash.0@.subrange(0, j as int),
            decreases 32 - j,
        {
            bytes.push(previous_chain_hash.0[j]);
            j = j + 1;
            assert(bytes@ =~= previous_chain_hash.0@.subrange(0, j as int));
        }
        let mut k: usize = 0;
        while k < 32
            invariant
                k <= 32,
                bytes@ == previous_chain_hash.0@ + new_hash.0@.subrange(0, k as int),
            decreases 32 - k,
        {
            bytes.push(new_hash.0[k]);
            k = k + 1;
            assert(bytes@ =~= previous_chain_hash.0@ + new_hash.0@.subrange(0, k as int));
        }
        assert(previous_chain_hash.0@.subrange(0, 32) =~= previous_chain_hash.0@);
        assert(new_hash.0@.subrange(0, 32) =~= new_hash.0@);
        StateHash(blake3_digest(bytes.as_slice()))
    }
}

impl Default for StateHasher {
    fn default() -> (r: StateHasher) {
        StateHasher::new()
    }
}

/// Hashing is a function of the state: equal encodings give equal hashes,
/// and so does hashing one state twice.
pub proof fn lemma_hash_consistent<S: State>(a: S, b: S, ha: StateHash, hb: StateHash)
    requires
        ha.0@ == state_digest(a),
        hb.0@ == state_digest(b),
        encoding_of(a) == encoding_of(b),
    ensures
        ha == hb,
{
    lemma_hash_eq_from_view(ha, hb);
}

/// Swapping two distinct hashes changes the bytes that the chain digests.
pub proof fn lemma_chain_input_order(h1: StateHash, h2: StateHash)
    requires
        h1 != h2,
    ensures
        chain_bytes(seq![h1, h2]) != chain_bytes(seq![h2, h1]),
{
    reveal_with_fuel(chain_bytes, 3);
    let s = seq![h1, h2];
    let t = seq![h2, h1];
    assert(s.drop_last() =~= seq![h1]);
    assert(t.drop_last() =~= seq![h2]);
    assert(seq![h1].drop_last() =~= Seq::<StateHash>::empty());
    assert(seq![h2].drop_last() =~= Seq::<StateHash>::empty());
    assert(chain_bytes(seq![h1]) =~= h1.0@);
    assert(chain_bytes(seq![h2]) =~= h2.0@);
    assert(chain_bytes(s) =~= h1.0@ + h2.0@);
    assert(chain_bytes(t) =~= h2.0@ + h1.0@);
    if chain_bytes(s) == chain_bytes(t) {
        assert((h1.0@ + h2.0@).subrange(0, 32) =~= h1.0@);
        assert((h2.0@ + h1.0@).subrange(0, 32) =~= h2.0@);
        lemma_hash_eq_from_view(h1, h2);
    }
}

} // verus!
