//! Block-relative time: the block a call runs in, points of expiry and spans
//! that are counted either in blocks or in seconds.

use vstd::prelude::*;

verus! {

/// Nanoseconds in one second.
pub const NANOS_PER_SECOND: u64 = 1_000_000_000;

/// What went wrong when a span was added to a point in time.
#[derive(Clone, Copy, Debug, PartialEq, Eq, Structural)]
pub enum TimeError {
    /// A span counted in blocks met a point counted in seconds, or the other
    /// way round.
    UnitMismatch,
    /// The sum does not fit in 64 bits.
    Overflow,
}

/// Height and time of the block in which a call is processed.
#[derive(Clone, Copy, Debug, PartialEq, Eq, Structural)]
pub struct BlockInfo {
    /// Number of the block.
    pub height: u64,
    /// Time of the block in nanoseconds since the epoch.
    pub time_nanos: u64,
}

/// A span of blocks or of seconds.
#[derive(Clone, Copy, Debug, PartialEq, Eq, Structural)]
pub enum Duration {
    /// A number of blocks.
    Height(u64),
    /// A number of seconds.
    Time(u64),
}

/// A point from which on something counts as expired.
#[derive(Clone, Copy, Debug, PartialEq, Eq, Structural)]
pub enum Expiration {
    /// Expired in every block whose height is at least this one.
    AtHeight(u64),
    /// Expired in every block whose time, in nanoseconds, is at least this one.
    AtTime(u64),
    /// Never expired.
    Never,
}

impl Duration {
    /// Whether both spans are counted in the same unit.
    pub open spec fn same_unit(self, other: Duration) -> bool {
        (self is Height) == (other is Height)
    }

    /// The point that lies this span after `block`, where it fits in 64 bits.
    pub open spec fn spec_after(self, block: BlockInfo) -> Option<Expiration> {
        match self {
            Duration::Height(h) => if block.height + h <= u64::MAX {
                Some(Expiration::AtHeight((block.height + h) as u64))
            } else {
                None
            },
            Duration::Time(t) => if block.time_nanos + t * NANOS_PER_SECOND <= u64::MAX {
                Some(Expiration::AtTime((block.time_nanos + t * NANOS_PER_SECOND) as u64))
            } else {
                None
            },
        }
    }

    /// Exec form of [`Duration::same_unit`].
    pub fn has_same_unit(&self, other: &Duration) -> (r: bool)
        ensures
            r == self.same_unit(*other),
    {
        match (self, other) {
            (Duration::Height(_), Duration::Height(_)) => true,
            (Duration::Time(_), Duration::Time(_)) => true,
            _ => false,
        }
    }

    /// The expiry that lies this span after `block`; `None` where the sum
    /// leaves 64 bits.
    pub fn after(&self, block: &BlockInfo) -> (r: Option<Expiration>)
        ensures
            r == self.spec_after(*block),
    {
        match self {
            Duration::Height(h) => match block.height.checked_add(*h) {
                Some(sum) => Some(Expiration::AtHeight(sum)),
                None => None,
            },
            Duration::Time(t) => match t.checked_mul(NANOS_PER_SECOND) {
                Some(nanos) => match block.time_nanos.checked_add(nanos) {
                    Some(sum) => Some(Expiration::AtTime(sum)),
                    None => None,
                },
                None => None,
            },
        }
    }
}

impl Expiration {
    /// Whether this point has been reached in `block`.
    pub open spec fn spec_is_expired(self, block: BlockInfo) -> bool {
        match self {
            Expiration::AtHeight(h) => block.height >= h,
            Expiration::AtTime(t) => block.time_nanos >= t,
            Expiration::Never => false,
        }
    }

    /// This point moved later by `span`.
    pub open spec fn spec_plus(self, span: Duration) -> Result<Expiration, TimeError> {
        match (self, span) {
            (Expiration::Never, _) => Ok(Expiration::Never),
            (Expiration::AtHeight(h), Duration::Height(d)) => if h + d <= u64::MAX {
                Ok(Expiration::AtHeight((h + d) as u64))
            } else {
                Err(TimeError::Overflow)
            },
            (Expiration::AtTime(t), Duration::Time(d)) => if t + d * NANOS_PER_SECOND <= u64::MAX {
                Ok(Expiration::AtTime((t + d * NANOS_PER_SECOND) as u64))
            } else {
                Err(TimeError::Overflow)
            },
            _ => Err(TimeError::UnitMismatch),
        }
    }

    /// Whether this point has been reached in `block`.
    pub fn is_expired(&self, block: &BlockInfo) -> (r: bool)
        ensures
            r == self.spec_is_expired(*block),
    {
        match self {
            Expiration::AtHeight(h) => block.height >= *h,
            Expiration::AtTime(t) => block.time_nanos >= *t,
            Expiration::Never => false,
        }
    }

    /// Moves this point later by `span`. `Never` stays `Never`; blocks cannot
    /// be added to seconds.
    pub fn plus(&self, span: &Duration) -> (r: Result<Expiration, TimeError>)
        ensures
            r == self.spec_plus(*span),
    {
        match (self, span) {
            (Expiration::Never, _) => Ok(Expiration::Never),
            (Expiration::AtHeight(h), Duration::Height(d)) => match h.checked_add(*d) {
                Some(sum) => Ok(Expiration::AtHeight(sum)),
                None => Err(TimeError::Overflow),
            },
            (Expiration::AtTime(t), Duration::Time(d)) => match d.checked_mul(NANOS_PER_SECOND) {
                Some(nanos) => match t.checked_add(nanos) {
                    Some(sum) => Ok(Expiration::AtTime(sum)),
                    None => Err(TimeError::Overflow),
                },
                None => Err(TimeError::Overflow),
            },
            _ => Err(TimeError::UnitMismatch),
        }
    }
}

/// Once a point has expired it stays expired in every later block.
pub proof fn lemma_expiry_is_monotone(e: Expiration, earlier: BlockInfo, later: BlockInfo)
    requires
        earlier.height <= later.height,
        earlier.time_nanos <= later.time_nanos,
        e.spec_is_expired(earlier),
    ensures
        e.spec_is_expired(later),
{
}

} // verus!
