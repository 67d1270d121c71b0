//! The universe buffer behind a verified reader/writer lock.
//!
//! Property writers and the transmission loop go through the same lock, so
//! a multi-channel write is applied as one critical section: a reader takes
//! its frame either entirely before or entirely after the write, never in
//! the middle of it (see [`crate::universe::lemma_snapshot_never_torn`]).
//! The lock is held only for the duration of the in-memory copy; sending a
//! frame over the wire happens on a snapshot, outside the lock.

use vstd::prelude::*;
use vstd::rwlock::{RwLock, RwLockPredicate};

use crate::universe::{BoundsError, Universe, UNIVERSE_CHANNELS};

verus! {

/// The lock invariant: every value the lock ever stores is a well-formed
/// 512-channel universe.
pub struct UniverseWf;

impl RwLockPredicate<Universe> for UniverseWf {
    open spec fn inv(self, u: Universe) -> bool {
        u.wf()
    }
}

/// A 512-channel universe shared between any number of writers and the
/// transmission loop, with exclusive writes and snapshot reads.
pub struct SharedUniverse {
    lock: RwLock<Universe, UniverseWf>,
}

impl SharedUniverse {
    #[verifier::type_invariant]
    spec fn inv(self) -> bool {
        self.lock.pred() == (UniverseWf)
    }

    /// A fresh shared universe with every channel at zero.
    pub fn new() -> (s: SharedUniverse) {
        let universe = Universe::new();
        let lock = RwLock::new(universe, Ghost(UniverseWf));
        SharedUniverse { lock }
    }

    /// Write `values` into the consecutive channels starting at `offset`,
    /// all under one acquisition of the write lock.
    ///
    /// Succeeds exactly when the range fits into the 512 channels; an
    /// out-of-range write is rejected and changes nothing. What the buffer
    /// holds afterwards is decided by whichever write commits last under
    /// the lock, so no postcondition speaks of the shared contents.
    pub fn set(&self, offset: usize, values: &Vec<u8>) -> (r: Result<(), BoundsError>)
        ensures
            r is Ok <==> offset + values@.len() <= UNIVERSE_CHANNELS,
            r matches Err(e) ==> e == (BoundsError { offset, len: values.len() }),
    {
        proof {
            use_type_invariant(self);
        }
        let (mut universe, handle) = self.lock.acquire_write();
        let r = universe.set(offset, values);
        handle.release_write(universe);
        r
    }

    /// Write each `(channel, value)` pair into the universe, all under one
    /// acquisition of the write lock: a reader never sees some of the pairs
    /// applied and others not.
    ///
    /// A channel index is a byte, so it is always within the 512 channels
    /// and the write cannot fail. Where two pairs aim at the same channel,
    /// the later one wins.
    pub fn set_channels(&self, writes: &Vec<(u8, u8)>) {
        proof {
            use_type_invariant(self);
        }
        let (mut universe, handle) = self.lock.acquire_write();
        universe.set_channels(writes);
        handle.release_write(universe);
    }

    /// Copy the current state of the universe out as one frame of exactly
    /// 512 bytes, under one acquisition of the read lock.
    pub fn snapshot(&self) -> (frame: Vec<u8>)
        ensures
            frame@.len() == UNIVERSE_CHANNELS,
    {
        proof {
            use_type_invariant(self);
        }
        let read_handle = self.lock.acquire_read();
        let frame = read_handle.borrow().snapshot();
        read_handle.release_read();
        frame
    }
}

} // verus!
