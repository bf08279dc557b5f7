//! The example host data object the frame loop exposes to scripts.

use vstd::prelude::*;

verus! {

/// Host data visible to scripts: how long the previous frame took, in
/// nanoseconds. The host builds a fresh value before each run.
#[derive(Debug, Clone, Copy, PartialEq, Eq, Structural)]
pub struct Data {
    pub ns: u64,
}

impl Data {
    /// Package a frame duration for the script scope.
    pub fn new(ns: u64) -> (r: Data)
        ensures
            r.ns == ns,
    {
        Data { ns }
    }

    /// The duration of the host's previous frame, in nanoseconds.
    /// Takes `&mut self` because the script runtime hands method
    /// receivers out mutably.
    pub fn frame_time_ns(&mut self) -> (r: u64)
        ensures
            r == old(self).ns,
            *final(self) == *old(self),
    {
        self.ns
    }
}

} // verus!
