//! The order-sensitive rolling hash used to fingerprint grids.
use vstd::prelude::*;

verus! {

/// One step of the rolling hash: `state * 31 + byte`, wrapping at 64 bits.
pub open spec fn hash_step(state: u64, byte: u8) -> u64 {
    vstd::wrapping::u64_specs::wrapping_add(
        vstd::wrapping::u64_specs::wrapping_mul(state, 31),
        byte as u64,
    )
}

/// The state reached from `start` after feeding `bytes` in order.
pub open spec fn hash_fold(start: u64, bytes: Seq<u8>) -> u64
    decreases bytes.len(),
{
    if bytes.len() == 0 {
        start
    } else {
        hash_step(hash_fold(start, bytes.drop_last()), bytes.last())
    }
}

/// Accumulates the rolling hash of the bytes written to it.
pub struct ArrayHasher {
    state: u64,
}

impl ArrayHasher {
    /// The hash accumulated so far.
    pub closed spec fn spec_state(&self) -> u64 {
        self.state
    }

    /// A hasher that has seen no bytes.
    pub fn new() -> (r: Self)
        ensures
            r.spec_state() == 0,
    {
        ArrayHasher { state: 0 }
    }

    /// The hash of everything written so far.
    pub fn finish(&self) -> (r: u64)
        ensures
            r == self.spec_state(),
    {
        self.state
    }

    /// Feeds `bytes` to the hash, in order.
    pub fn write(&mut self, bytes: &[u8])
        ensures
            final(self).spec_state() == hash_fold(old(self).spec_state(), bytes@),
    {
        let ghost start = self.state;
        let mut state = self.state;
        let mut i: usize = 0;
        while i < bytes.len()
            invariant
                i <= bytes@.len(),
                state == hash_fold(start, bytes@.subrange(0, i as int)),
            decreases bytes@.len() - i,
        {
            assert(bytes@.subrange(0, i + 1).drop_last() =~= bytes@.subrange(0, i as int));
            state = state.wrapping_mul(31).wrapping_add(bytes[i] as u64);
            i = i + 1;
        }
        assert(bytes@.subrange(0, bytes@.len() as int) =~= bytes@);
        self.state = state;
    }
}

/// The rolling hash of `bytes`, starting from zero.
pub fn hash_array(bytes: &[u8]) -> (r: u64)
    ensures
        r == hash_fold(0, bytes@),
{
    let mut hasher = ArrayHasher::new();
    hasher.write(bytes);
    hasher.finish()
}

} // verus!
