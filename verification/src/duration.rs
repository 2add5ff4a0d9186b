//! A span of time with nanosecond precision, as plain integers.

use vstd::prelude::*;

verus! {

/// Nanoseconds in one second.
pub const NANOS_PER_SEC: u64 = 1_000_000_000;

/// The longest span a `Duration` holds, in nanoseconds.
pub open spec fn max_span() -> nat {
    18_446_744_073_709_551_615nat * 1_000_000_000nat + 999_999_999nat
}

/// A span of time: whole seconds and the nanoseconds beyond them.
#[derive(Clone, Copy, Debug, PartialEq, Eq, Structural)]
pub struct Duration {
    secs: u64,
    nanos: u32,
}

impl Duration {
    #[verifier::type_invariant]
    spec fn normalized(self) -> bool {
        self.nanos < 1_000_000_000
    }

    /// The length of the span in nanoseconds.
    pub closed spec fn span(self) -> nat {
        self.secs as nat * 1_000_000_000 + self.nanos as nat
    }

    /// A span of `secs` seconds and `nanos` nanoseconds; nanoseconds beyond a
    /// second carry into the seconds.
    pub fn new(secs: u64, nanos: u32) -> (d: Duration)
        requires
            secs + nanos / 1_000_000_000 <= u64::MAX,
        ensures
            d@ == secs * 1_000_000_000 + nanos,
    {
        let extra: u64 = (nanos / 1_000_000_000) as u64;
        let rest: u32 = nanos % 1_000_000_000;
        Duration { secs: secs + extra, nanos: rest }
    }

    /// A span of whole seconds.
    pub fn from_secs(secs: u64) -> (d: Duration)
        ensures
            d@ == secs * 1_000_000_000,
    {
        Duration { secs, nanos: 0 }
    }

    /// A span of whole milliseconds.
    pub fn from_millis(millis: u64) -> (d: Duration)
        ensures
            d@ == millis * 1_000_000,
    {
        let secs: u64 = millis / 1000;
        let rest: u64 = millis % 1000;
        Duration { secs, nanos: (rest * 1_000_000) as u32 }
    }

    /// The whole seconds in the span.
    pub fn as_secs(&self) -> (s: u64)
        ensures
            s == self@ / 1_000_000_000,
    {
        proof {
            use_type_invariant(self);
        }
        self.secs
    }

    /// The nanoseconds beyond the whole seconds.
    pub fn subsec_nanos(&self) -> (n: u32)
        ensures
            n == self@ % 1_000_000_000,
    {
        proof {
            use_type_invariant(self);
        }
        self.nanos
    }

    /// The whole milliseconds in the span.
    pub fn as_millis(&self) -> (m: u128)
        ensures
            m == self@ / 1_000_000,
    {
        proof {
            use_type_invariant(self);
        }
        self.secs as u128 * 1000 + (self.nanos / 1_000_000) as u128
    }

    /// Whether this span is no longer than `other`; no span is longer than
    /// `max_span()`.
    pub fn le(&self, other: &Duration) -> (b: bool)
        ensures
            b == (self@ <= other@),
            self@ <= max_span(),
            other@ <= max_span(),
    {
        proof {
            use_type_invariant(self);
            use_type_invariant(other);
        }
        self.secs < other.secs || (self.secs == other.secs && self.nanos <= other.nanos)
    }

    /// The shorter of two spans (the first when they are equal).
    pub fn min(self, other: Duration) -> (d: Duration)
        ensures
            d@ == (if self@ <= other@ { self@ } else { other@ }),
    {
        if self.le(&other) {
            self
        } else {
            other
        }
    }

    /// The span `rhs` times over, or `None` when that is longer than a
    /// `Duration` holds.
    pub fn checked_mul(self, rhs: u32) -> (d: Option<Duration>)
        ensures
            d is Some <==> self@ * rhs <= max_span(),
            d matches Some(p) ==> p@ == self@ * rhs,
    {
        proof {
            use_type_invariant(&self);
        }
        proof {
            assert(self.nanos as int * rhs as int <= 999_999_999 * 4_294_967_295) by (nonlinear_arith)
                requires
                    self.nanos < 1_000_000_000,
                    rhs <= 4_294_967_295,
            ;
            assert(self.secs as int * rhs as int <= 18_446_744_073_709_551_615 * 4_294_967_295)
                by (nonlinear_arith)
                requires
                    self.secs <= 18_446_744_073_709_551_615,
                    rhs <= 4_294_967_295,
            ;
        }
        let total: u64 = self.nanos as u64 * rhs as u64;
        let extra: u64 = total / NANOS_PER_SEC;
        let rest: u32 = (total % NANOS_PER_SEC) as u32;
        let secs: u128 = self.secs as u128 * rhs as u128 + extra as u128;
        proof {
            let v = self@ as int;
            let s = self.secs as int;
            let n = self.nanos as int;
            let r = rhs as int;
            assert(v * r == s * r * 1_000_000_000 + n * r) by (nonlinear_arith)
                requires
                    v == s * 1_000_000_000 + n,
            ;
            assert(total as int == extra as int * 1_000_000_000 + rest as int);
            assert(v * r == secs as int * 1_000_000_000 + rest as int);
        }
        if secs <= 18_446_744_073_709_551_615u128 {
            Some(Duration { secs: secs as u64, nanos: rest })
        } else {
            None
        }
    }
}

impl View for Duration {
    type V = nat;

    open spec fn view(&self) -> nat {
        self.span()
    }
}

} // verus!
