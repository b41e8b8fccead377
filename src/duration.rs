use vstd::prelude::*;

verus! {

/// Nanoseconds in one second.
pub const NANOS_PER_SEC: u128 = 1_000_000_000;

/// The largest span a `std::time::Duration` can hold, in nanoseconds.
pub const MAX_NANOS: u128 = 18_446_744_073_709_551_615_999_999_999;

/// A span of time with nanosecond precision, as long as a
/// `std::time::Duration` can hold.
#[derive(Clone, Copy, Debug, PartialEq, Eq, Structural, Hash)]
pub struct Duration {
    pub nanos: u128,
}

impl View for Duration {
    type V = nat;

    open spec fn view(&self) -> nat {
        self.nanos as nat
    }
}

impl Duration {
    /// The span fits a `std::time::Duration`.
    pub open spec fn wf(self) -> bool {
        self.nanos <= MAX_NANOS
    }

    /// The empty span.
    pub fn zero() -> (r: Duration)
        ensures
            r@ == 0,
            r.wf(),
    {
        Duration { nanos: 0 }
    }

    pub fn from_secs(secs: u64) -> (r: Duration)
        ensures
            r@ == secs * NANOS_PER_SEC,
            r.wf(),
    {
        Duration { nanos: secs as u128 * NANOS_PER_SEC }
    }

    /// The span of `nanos` nanoseconds.
    pub fn from_nanos(nanos: u128) -> (r: Duration)
        requires
            nanos <= MAX_NANOS,
        ensures
            r@ == nanos,
            r.wf(),
    {
        Duration { nanos }
    }

    pub fn as_nanos(&self) -> (r: u128)
        ensures
            r == self@,
    {
        self.nanos
    }

    /// Whole seconds of the span; the fraction of a second is dropped.
    pub fn as_secs(&self) -> (r: u64)
        requires
            self.wf(),
        ensures
            r == self@ / (NANOS_PER_SEC as nat),
    {
        assert(self.nanos / NANOS_PER_SEC <= u64::MAX) by (nonlinear_arith)
            requires
                self.nanos <= MAX_NANOS,
        ;
        (self.nanos / NANOS_PER_SEC) as u64
    }

    /// Nanoseconds past the last whole second.
    pub fn subsec_nanos(&self) -> (r: u32)
        ensures
            r == self@ % (NANOS_PER_SEC as nat),
            r < NANOS_PER_SEC,
    {
        (self.nanos % NANOS_PER_SEC) as u32
    }

    /// The span with its fraction of a second dropped.
    pub fn truncated_to_secs(&self) -> (r: Duration)
        requires
            self.wf(),
        ensures
            r@ == (self@ / (NANOS_PER_SEC as nat)) * (NANOS_PER_SEC as nat),
            r.wf(),
    {
        Duration::from_secs(self.as_secs())
    }

    /// `self - other`, or `None` where `other` is the longer span.
    pub fn checked_sub(&self, other: &Duration) -> (r: Option<Duration>)
        ensures
            other@ <= self@ <==> r is Some,
            r matches Some(d) ==> d@ == self@ - other@ && (self.wf() ==> d.wf()),
    {
        if other.nanos <= self.nanos {
            Some(Duration { nanos: self.nanos - other.nanos })
        } else {
            None
        }
    }
}

} // verus!
