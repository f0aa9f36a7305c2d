//! The warm-start cache: the best-known snapshot of the machine at or before
//! the point where the target program first consumes randomness.

use vstd::prelude::*;
use vstd::slice::slice_to_vec;

verus! {

/// The mathematical state of the cache.
pub struct CacheState {
    /// The snapshot that a restore gets.
    pub snapshot: Seq<u8>,
    /// Whether a worker has published a snapshot since the cache was made.
    pub warm: bool,
}

/// Holder of the snapshot that every trial starts from. It holds the base
/// snapshot until a worker publishes a later one. Publications are not
/// ordered: each of them lies at or before the randomness boundary, so
/// whichever came last is safe to restore from.
pub struct WarmStartCache {
    snapshot: Vec<u8>,
    warm: bool,
}

impl View for WarmStartCache {
    type V = CacheState;

    closed spec fn view(&self) -> CacheState {
        CacheState { snapshot: self.snapshot@, warm: self.warm }
    }
}

impl WarmStartCache {
    /// A cache that holds the base snapshot.
    pub fn new(base: Vec<u8>) -> (cache: WarmStartCache)
        ensures
            cache@ == (CacheState { snapshot: base@, warm: false }),
    {
        WarmStartCache { snapshot: base, warm: false }
    }

    /// A copy of the current snapshot, to restore the machine from.
    pub fn get(&self) -> (snapshot: Vec<u8>)
        ensures
            snapshot@ == self@.snapshot,
    {
        slice_to_vec(self.snapshot.as_slice())
    }

    /// Replaces the snapshot, whatever was held before.
    pub fn publish(&mut self, snapshot: Vec<u8>)
        ensures
            final(self)@ == (CacheState { snapshot: snapshot@, warm: true }),
    {
        self.snapshot = snapshot;
        self.warm = true;
    }

    /// Whether the snapshot held was published by a worker.
    pub fn is_warm(&self) -> (r: bool)
        ensures
            r == self@.warm,
    {
        self.warm
    }
}

} // verus!
