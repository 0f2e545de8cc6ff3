//! Protocol timestamps: the wire carries a signed microsecond offset from the
//! protocol epoch (2000-01-01T00:00:00Z), which lies 946,684,800 seconds after
//! the Unix epoch. An absolute time is modelled as a signed microsecond count
//! relative to the Unix epoch, wide enough to hold the epoch plus or minus any
//! 64-bit offset.

use vstd::prelude::*;

verus! {

/// Microseconds between the Unix epoch and the protocol epoch.
pub const PG_EPOCH_MICROS: i128 = 946_684_800_000_000;

/// An absolute point in time: microseconds since the Unix epoch (may be
/// negative for times before it).
#[derive(Clone, Copy, Debug, PartialEq, Eq)]
pub struct Timestamp {
    pub micros: i128,
}

impl Timestamp {
    /// The microsecond count this timestamp stands for.
    pub fn micros(&self) -> (r: i128)
        ensures
            r == self.micros,
    {
        self.micros
    }
}

/// What `timestamp_from` computes: for a positive offset, that many
/// microseconds after the protocol epoch; for zero or a negative offset, the
/// magnitude subtracted from it. (The two branches agree arithmetically; the
/// sign-then-magnitude phrasing mirrors the protocol's definition.)
pub open spec fn spec_timestamp_from(ts: i64) -> int {
    if ts > 0 {
        PG_EPOCH_MICROS + ts
    } else {
        PG_EPOCH_MICROS - (-(ts as int))
    }
}

/// Convert a signed microsecond offset relative to the protocol epoch into an
/// absolute timestamp: the epoch plus the offset when positive, the epoch
/// minus the magnitude when zero or negative.
pub fn timestamp_from(ts: i64) -> (r: Timestamp)
    ensures
        r.micros == spec_timestamp_from(ts),
        ts > 0 ==> r.micros == PG_EPOCH_MICROS + ts,
        ts <= 0 ==> r.micros == PG_EPOCH_MICROS - (-(ts as int)),
{
    if ts > 0 {
        Timestamp { micros: PG_EPOCH_MICROS + (ts as i128) }
    } else {
        Timestamp { micros: PG_EPOCH_MICROS - (-(ts as i128)) }
    }
}

} // verus!
