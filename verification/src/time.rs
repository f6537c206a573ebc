//! Points in time with a fixed UTC offset, as the feeds and the store carry
//! them: seconds since the Unix epoch (UTC), a sub-second part in
//! nanoseconds, and the offset east of UTC in seconds.
use vstd::prelude::*;

verus! {

/// The last second that a date-time value can hold (262142-12-31T23:59:59Z).
pub const MAX_UTC_SECS: i64 = 8210266876799;

/// The first second that a date-time value can hold (-262143-01-01T00:00:00Z).
pub const MIN_UTC_SECS: i64 = -8334601315200;

/// Seconds in a day.
pub const SECS_PER_DAY: u64 = 86400;

/// An instant with the offset it is shown in.
///
/// A sub-second part of one second or more marks an instant inside a leap
/// second, as in the representation it mirrors.
#[derive(Clone, Copy, Debug)]
pub struct Timestamp {
    pub secs: i64,
    pub nanos: u32,
    pub offset_secs: i32,
}

impl Timestamp {
    /// The value lies in the range that date-time values cover.
    pub open spec fn wf(self) -> bool {
        &&& MIN_UTC_SECS <= self.secs <= MAX_UTC_SECS
        &&& self.nanos < 2_000_000_000
    }

    /// `self` is strictly before `other` (offsets play no part).
    pub open spec fn earlier(self, other: Timestamp) -> bool {
        self.secs < other.secs || (self.secs == other.secs && self.nanos < other.nanos)
    }

    /// The same instant shown in UTC.
    pub open spec fn spec_in_utc(self) -> Timestamp {
        Timestamp { secs: self.secs, nanos: self.nanos, offset_secs: 0 }
    }

    /// `self` moved forward by `d` whole seconds, for `d > 0`: an instant
    /// inside a leap second first leaves it, keeping its fraction.
    pub open spec fn spec_plus_secs(self, d: int) -> Timestamp {
        Timestamp {
            secs: (self.secs + d) as i64,
            nanos: (self.nanos % 1_000_000_000) as u32,
            offset_secs: self.offset_secs,
        }
    }

    /// The Unix epoch, 1970-01-01T00:00:00Z.
    pub open spec fn spec_epoch() -> Timestamp {
        Timestamp { secs: 0, nanos: 0, offset_secs: 0 }
    }

    /// The Unix epoch, 1970-01-01T00:00:00Z, at offset zero.
    pub fn epoch() -> (t: Timestamp)
        ensures
            t == Timestamp::spec_epoch(),
    {
        Timestamp { secs: 0, nanos: 0, offset_secs: 0 }
    }

    /// The same instant, shown in UTC.
    pub fn in_utc(&self) -> (t: Timestamp)
        ensures
            t == self.spec_in_utc(),
    {
        Timestamp { secs: self.secs, nanos: self.nanos, offset_secs: 0 }
    }

    /// Whether `self` is strictly before `other`.
    pub fn is_before(&self, other: &Timestamp) -> (b: bool)
        ensures
            b == self.earlier(*other),
    {
        self.secs < other.secs || (self.secs == other.secs && self.nanos < other.nanos)
    }

    /// Whether moving `self` forward by `d` seconds stays in range.
    pub fn can_add_secs(&self, d: u64) -> (b: bool)
        requires
            self.wf(),
        ensures
            b == (self.secs + d <= MAX_UTC_SECS),
    {
        (self.secs as i128) + (d as i128) <= (MAX_UTC_SECS as i128)
    }

    /// `self` moved forward by `d` seconds.
    pub fn plus_secs(&self, d: u64) -> (t: Timestamp)
        requires
            self.wf(),
            d > 0,
            self.secs + d <= MAX_UTC_SECS,
        ensures
            t == self.spec_plus_secs(d as int),
            t.wf(),
    {
        Timestamp {
            secs: self.secs + d as i64,
            nanos: self.nanos % 1_000_000_000,
            offset_secs: self.offset_secs,
        }
    }
}

} // verus!
