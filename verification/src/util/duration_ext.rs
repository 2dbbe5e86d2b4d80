//! Lengths of time, and short ways to write them.
use vstd::prelude::*;

verus! {

/// The number of nanoseconds in a second.
pub const NANOS_PER_SEC: u32 = 1_000_000_000;

/// A length of time in seconds and nanoseconds.
#[derive(Clone, Copy, Debug, PartialEq, Eq, Structural)]
pub struct Duration {
    secs: u64,
    nanos: u32,
}

impl Duration {
    #[verifier::type_invariant]
    spec fn nanos_below_a_second(self) -> bool {
        self.nanos < NANOS_PER_SEC
    }

    /// The length in nanoseconds.
    pub closed spec fn total_nanos(self) -> nat {
        self.secs as nat * NANOS_PER_SEC as nat + self.nanos as nat
    }

    pub fn from_secs(secs: u64) -> (r: Self)
        ensures
            r.total_nanos() == secs * 1_000_000_000,
    {
        Duration { secs, nanos: 0 }
    }

    pub fn from_millis(millis: u64) -> (r: Self)
        ensures
            r.total_nanos() == millis * 1_000_000,
    {
        Duration { secs: millis / 1000, nanos: (millis % 1000) as u32 * 1_000_000 }
    }

    /// The length that the two parts make up, where `nanos` is less than a second.
    pub fn from_parts(secs: u64, nanos: u32) -> (r: Self)
        requires
            nanos < NANOS_PER_SEC,
        ensures
            r.total_nanos() == secs * 1_000_000_000 + nanos,
    {
        Duration { secs, nanos }
    }

    /// The whole seconds of the length.
    pub fn as_secs(&self) -> (r: u64)
        ensures
            r == self.total_nanos() / 1_000_000_000,
    {
        proof {
            use_type_invariant(self);
        }
        self.secs
    }

    /// The nanoseconds beyond the whole seconds.
    pub fn subsec_nanos(&self) -> (r: u32)
        ensures
            r == self.total_nanos() % 1_000_000_000,
    {
        proof {
            use_type_invariant(self);
        }
        self.nanos
    }

    /// The length in nanoseconds, which is less than 2^64 seconds.
    pub fn as_nanos(&self) -> (r: u128)
        ensures
            r == self.total_nanos(),
            r < 0x1_0000_0000_0000_0000 * 1_000_000_000,
    {
        proof {
            use_type_invariant(self);
        }
        self.secs as u128 * 1_000_000_000 + self.nanos as u128
    }

    pub fn as_millis(&self) -> (r: u128)
        ensures
            r == self.total_nanos() / 1_000_000,
    {
        self.as_nanos() / 1_000_000
    }

}

/// Writes lengths of time as numbers of some unit.
pub trait DurationExt {
    spec fn count(&self) -> nat;

    fn seconds(&self) -> (r: Duration)
        ensures
            r.total_nanos() == self.count() * 1_000_000_000,
    ;

    fn millis(&self) -> (r: Duration)
        ensures
            r.total_nanos() == self.count() * 1_000_000,
    ;

    fn minutes(&self) -> (r: Duration)
        requires
            self.count() * 60 <= u64::MAX,
        ensures
            r.total_nanos() == self.count() * 60 * 1_000_000_000,
    ;

    fn hours(&self) -> (r: Duration)
        requires
            self.count() * 3600 <= u64::MAX,
        ensures
            r.total_nanos() == self.count() * 3600 * 1_000_000_000,
    ;
}

impl DurationExt for u64 {
    open spec fn count(&self) -> nat {
        *self as nat
    }

    fn seconds(&self) -> (r: Duration) {
        Duration::from_secs(*self)
    }

    fn millis(&self) -> (r: Duration) {
        Duration::from_millis(*self)
    }

    fn minutes(&self) -> (r: Duration) {
        Duration::from_secs(*self * 60)
    }

    fn hours(&self) -> (r: Duration) {
        Duration::from_secs(*self * 60 * 60)
    }
}

} // verus!
