//! What the monitor and the sweep read of a torrent at one instant.

use crate::state::TorrentState;
use vstd::prelude::*;

verus! {

/// A fraction as the engine reports it: the bit pattern of an IEEE 754
/// single-precision number, so that it can be compared exactly.
#[derive(Clone, Copy, Debug, PartialEq, Eq, Structural)]
pub struct Fraction {
    pub bits: u32,
}

/// The bit pattern of `1.0`.
pub const ONE_BITS: u32 = 0x3f80_0000;

/// The bit pattern of positive infinity, the largest pattern that is a
/// number and not negative.
pub const INFINITY_BITS: u32 = 0x7f80_0000;

impl Fraction {
    /// Whether the number is at least `1.0`: its sign bit is clear, it is
    /// not a NaN, and its magnitude is not below that of `1.0`. Among such
    /// patterns the order of the bits is the order of the numbers.
    pub open spec fn reaches_one(self) -> bool {
        ONE_BITS <= self.bits <= INFINITY_BITS
    }

    pub fn from_bits(bits: u32) -> (f: Fraction)
        ensures
            f.bits == bits,
    {
        Fraction { bits }
    }

    /// Tells whether the number is at least `1.0`.
    pub fn is_complete(&self) -> (r: bool)
        ensures
            r == self.reaches_one(),
    {
        ONE_BITS <= self.bits && self.bits <= INFINITY_BITS
    }
}

/// One reading of a torrent.
#[derive(Clone, Copy, Debug, PartialEq, Eq, Structural)]
pub struct Snapshot {
    /// The ID of the torrent.
    pub id: i32,
    /// The state of the torrent.
    pub state: TorrentState,
    /// Percent of the desired download completed.
    pub percent_done: Fraction,
}

impl Snapshot {
    /// Whether the torrent has everything it wanted and still distributes
    /// it: such a torrent is due to be stopped.
    pub open spec fn is_idle_seeder(self) -> bool {
        self.percent_done.reaches_one() && self.state == TorrentState::Seeding
    }

    /// Tells whether the torrent is due to be stopped.
    pub fn idle_seeder(&self) -> (r: bool)
        ensures
            r == self.is_idle_seeder(),
    {
        self.percent_done.is_complete() && self.state == TorrentState::Seeding
    }
}

} // verus!
