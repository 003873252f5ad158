//! Time spans as plain integers: whole seconds and the nanoseconds below
//! them, the way `std::time::Duration` holds them.
use vstd::prelude::*;

verus! {

/// Nanoseconds in one second.
pub const NANOS_PER_SEC: u32 = 1_000_000_000;

/// A length of time: `secs` whole seconds plus `nanos` nanoseconds.
#[derive(Clone, Copy, Debug, PartialEq, Eq, Structural)]
pub struct Span {
    pub secs: u64,
    pub nanos: u32,
}

/// The largest number of nanoseconds a span can hold, plus one.
pub open spec fn span_nanos_bound() -> int {
    (u64::MAX as int + 1) * 1_000_000_000
}

/// The well-formed span of `n` nanoseconds.
pub open spec fn span_of_nanos(n: int) -> Span {
    Span { secs: (n / 1_000_000_000) as u64, nanos: (n % 1_000_000_000) as u32 }
}

impl Span {
    /// The sub-second part is below one second, as in `Duration`.
    pub open spec fn wf(self) -> bool {
        self.nanos < 1_000_000_000
    }

    /// The span's length in nanoseconds.
    pub open spec fn as_nanos(self) -> int {
        self.secs * 1_000_000_000 + self.nanos
    }

    /// A span of whole seconds.
    pub fn from_secs(secs: u64) -> (s: Span)
        ensures
            s == (Span { secs, nanos: 0 }),
            s.wf(),
    {
        Span { secs, nanos: 0 }
    }

    /// Whether the span has length zero.
    pub fn is_zero(&self) -> (r: bool)
        ensures
            r == (self.secs == 0 && self.nanos == 0),
    {
        self.secs == 0 && self.nanos == 0
    }

    /// The span's length in nanoseconds.
    pub fn total_nanos(&self) -> (n: u128)
        ensures
            n == self.as_nanos(),
    {
        proof {
            lemma_as_nanos_bound(*self);
        }
        (self.secs as u128) * 1_000_000_000 + (self.nanos as u128)
    }

    /// The well-formed span `n` nanoseconds long.
    pub fn from_nanos(n: u128) -> (s: Span)
        requires
            n < span_nanos_bound(),
        ensures
            s.wf(),
            s.as_nanos() == n,
            s == span_of_nanos(n as int),
    {
        let secs = n / 1_000_000_000;
        let nanos = n % 1_000_000_000;
        assert(secs * 1_000_000_000 + nanos == n) by (nonlinear_arith)
            requires
                secs == n / 1_000_000_000,
                nanos == n % 1_000_000_000,
        ;
        assert(secs <= u64::MAX) by (nonlinear_arith)
            requires
                n < (u64::MAX as int + 1) * 1_000_000_000,
                secs == n / 1_000_000_000,
        ;
        Span { secs: secs as u64, nanos: nanos as u32 }
    }
}

/// A span's nanosecond count fits in a `u128`.
pub proof fn lemma_as_nanos_bound(s: Span)
    ensures
        0 <= s.as_nanos() < (u64::MAX as int + 1) * 1_000_000_000 + 0x1_0000_0000,
{
    assert(s.secs * 1_000_000_000 <= u64::MAX as int * 1_000_000_000) by (nonlinear_arith)
        requires
            s.secs <= u64::MAX,
    ;
}

} // verus!
