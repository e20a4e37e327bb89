//! Points in time, as offsets from the Unix epoch.

use vstd::prelude::*;

verus! {

/// The number of nanoseconds in a second.
pub const NANOS_PER_SEC: u32 = 1_000_000_000;

/// The whole seconds in a span of `nanos` nanoseconds; a negative span counts as none.
pub open spec fn whole_secs(nanos: int) -> int {
    if nanos >= 0 {
        nanos / (NANOS_PER_SEC as int)
    } else {
        0
    }
}

/// A point in time. Its view is its distance from the Unix epoch in nanoseconds, negative for a
/// time before the epoch.
#[derive(Clone, Copy, Debug)]
pub struct Timestamp {
    secs: i64,
    nanos: u32,
}

impl View for Timestamp {
    type V = int;

    closed spec fn view(&self) -> int {
        self.secs * (NANOS_PER_SEC as int) + self.nanos
    }
}

impl Timestamp {
    #[verifier::type_invariant]
    spec fn in_range(self) -> bool {
        self.nanos < NANOS_PER_SEC
    }

    /// Builds the time that is `secs` seconds and `nanos` nanoseconds after the Unix epoch, or
    /// before it.
    ///
    /// There is none if `nanos` makes up a second or more, or if the seconds from the epoch,
    /// rounded down, do not fit in an `i64`.
    pub fn from_epoch_offset(after_epoch: bool, secs: u64, nanos: u32) -> (time: Option<Timestamp>)
        ensures
            ({
                let offset = secs * (NANOS_PER_SEC as int) + nanos;
                let total = if after_epoch { offset } else { -offset };
                match time {
                    Some(time) => nanos < NANOS_PER_SEC && time@ == total && i64::MIN <= total / (
                    NANOS_PER_SEC as int) <= i64::MAX,
                    None => nanos >= NANOS_PER_SEC || total / (NANOS_PER_SEC as int) < i64::MIN
                        || total / (NANOS_PER_SEC as int) > i64::MAX,
                }
            }),
    {
        if nanos >= NANOS_PER_SEC {
            return None;
        }
        let whole: i128 = secs as i128;
        let (floor, rest): (i128, u32) = if after_epoch {
            (whole, nanos)
        } else if nanos == 0 {
            (-whole, 0)
        } else {
            (-whole - 1, NANOS_PER_SEC - nanos)
        };
        if floor < i64::MIN as i128 || floor > i64::MAX as i128 {
            None
        } else {
            Some(Timestamp { secs: floor as i64, nanos: rest })
        }
    }

    /// Returns the whole seconds from the Unix epoch to this time, or 0 for a time before it.
    pub fn unix_secs(self) -> (secs: u64)
        ensures
            secs == whole_secs(self@),
            self@ >= 0 ==> secs * 1_000_000_000 <= self@ < (secs + 1) * 1_000_000_000,
            self@ < 0 ==> secs == 0,
    {
        proof {
            use_type_invariant(&self);
        }
        if self.secs < 0 {
            0
        } else {
            self.secs as u64
        }
    }

    /// Returns the whole seconds from `earlier` to this time, or 0 if this time is before it.
    pub fn secs_since(self, earlier: Timestamp) -> (secs: u64)
        ensures
            secs == whole_secs(self@ - earlier@),
            self@ >= earlier@ ==> earlier@ + secs * 1_000_000_000 <= self@ < earlier@ + (secs + 1)
                * 1_000_000_000,
            self@ < earlier@ ==> secs == 0,
    {
        proof {
            use_type_invariant(&self);
            use_type_invariant(&earlier);
        }
        let borrow: i128 = if self.nanos < earlier.nanos {
            1
        } else {
            0
        };
        let span: i128 = self.secs as i128 - earlier.secs as i128 - borrow;
        if span < 0 {
            0
        } else {
            span as u64
        }
    }
}

/// The whole seconds of a span are the greatest number of seconds that fits in it; none fits in a
/// span that runs backwards.
pub proof fn law_whole_seconds_fill_the_span(nanos: int)
    ensures
        nanos >= 0 ==> whole_secs(nanos) * 1_000_000_000 <= nanos < (whole_secs(nanos) + 1)
            * 1_000_000_000,
        nanos < 0 ==> whole_secs(nanos) == 0,
        whole_secs(nanos) >= 0,
{
}

/// A span that is longer by some seconds has that many whole seconds more.
pub proof fn law_seconds_add_up(nanos: int, secs: int)
    requires
        nanos >= 0,
        secs >= 0,
    ensures
        whole_secs(nanos + secs * 1_000_000_000) == whole_secs(nanos) + secs,
{
}

/// A longer span never has fewer whole seconds.
pub proof fn law_seconds_grow_with_the_span(shorter: int, longer: int)
    requires
        shorter <= longer,
    ensures
        whole_secs(shorter) <= whole_secs(longer),
{
}

} // verus!
