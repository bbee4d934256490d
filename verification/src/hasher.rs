//! The sink into which an overlay writes whatever its layout depends on.

use vstd::prelude::*;
use std::collections::hash_map::DefaultHasher;
use vstd::std_specs::hash::DefaultHasherAdditionalSpecFns;

verus! {

/// An accumulating hash state. Its view is the sequence of byte strings that
/// were written into it so far, oldest first.
pub struct Hasher {
    state: DefaultHasher,
}

impl View for Hasher {
    type V = Seq<Seq<u8>>;

    closed spec fn view(&self) -> Seq<Seq<u8>> {
        self.state@
    }
}

impl Hasher {
    /// The digest of a sink into which `written` was written.
    pub closed spec fn digest(written: Seq<Seq<u8>>) -> u64 {
        DefaultHasher::spec_finish(written)
    }

    /// A sink into which nothing was written yet.
    pub fn new() -> (hasher: Hasher)
        ensures
            hasher@ == Seq::<Seq<u8>>::empty(),
    {
        Hasher { state: DefaultHasher::new() }
    }

    /// Writes `bytes` into the sink, behind all that was written before.
    pub fn write(&mut self, bytes: &[u8])
        ensures
            final(self)@ == old(self)@.push(bytes@),
    {
        std::hash::Hasher::write(&mut self.state, bytes)
    }

    /// The digest of all that was written so far. Two sinks with equal views
    /// have equal digests.
    pub fn finish(&self) -> (digest: u64)
        ensures
            digest == Hasher::digest(self@),
    {
        std::hash::Hasher::finish(&self.state)
    }
}

} // verus!
