//! Time spans and clock readings used by the runtime's statistics.
use vstd::prelude::*;

verus! {

/// Nanoseconds in one second.
pub const NANOS_PER_SEC: u128 = 1_000_000_000;

/// Largest representable span: `u64::MAX` seconds plus 999_999_999 nanoseconds.
pub const MAX_NANOS: u128 = 18446744073709551615u128 * 1_000_000_000u128 + 999_999_999u128;

/// A span of time with nanosecond precision.
#[derive(Clone, Copy, Debug, PartialEq, Eq, Hash, PartialOrd, Ord, Structural)]
pub struct Duration {
    nanos: u128,
}

impl View for Duration {
    type V = nat;

    closed spec fn view(&self) -> nat {
        self.nanos as nat
    }
}

/// What `Duration / n` yields on a span of `total` nanoseconds: the seconds and the
/// sub-second part are divided separately and the remainder of the seconds is carried.
pub open spec fn div_spec(total: nat, n: nat) -> nat
    recommends
        n > 0,
{
    let secs = total / 1_000_000_000;
    let sub = total % 1_000_000_000;
    let q = secs / n;
    let carry = secs % n;
    q * 1_000_000_000 + sub / n + (carry * 1_000_000_000) / n
}

impl Duration {
    #[verifier::type_invariant]
    spec fn inv(self) -> bool {
        self.nanos <= MAX_NANOS
    }

    /// The empty span.
    pub fn zero() -> (d: Duration)
        ensures
            d@ == 0,
    {
        Duration { nanos: 0 }
    }

    /// A span of `secs` seconds.
    pub fn from_secs(secs: u64) -> (d: Duration)
        ensures
            d@ == secs * 1_000_000_000,
    {
        assert(secs * 1_000_000_000 <= MAX_NANOS) by (nonlinear_arith)
            requires
                secs <= 18446744073709551615u64,
        ;
        Duration { nanos: secs as u128 * NANOS_PER_SEC }
    }

    /// A span of `millis` milliseconds.
    pub fn from_millis(millis: u64) -> (d: Duration)
        ensures
            d@ == millis * 1_000_000,
    {
        assert(millis * 1_000_000 <= MAX_NANOS) by (nonlinear_arith)
            requires
                millis <= 18446744073709551615u64,
        ;
        Duration { nanos: millis as u128 * 1_000_000 }
    }

    /// A span of `micros` microseconds.
    pub fn from_micros(micros: u64) -> (d: Duration)
        ensures
            d@ == micros * 1_000,
    {
        assert(micros * 1_000 <= MAX_NANOS) by (nonlinear_arith)
            requires
                micros <= 18446744073709551615u64,
        ;
        Duration { nanos: micros as u128 * 1_000 }
    }

    /// A span of `nanos` nanoseconds.
    pub fn from_nanos(nanos: u64) -> (d: Duration)
        ensures
            d@ == nanos,
    {
        Duration { nanos: nanos as u128 }
    }

    /// Whole nanoseconds in the span.
    pub fn as_nanos(&self) -> (n: u128)
        ensures
            n == self@,
            n <= MAX_NANOS,
    {
        proof {
            use_type_invariant(*self);
        }
        self.nanos
    }

    /// Whole seconds in the span.
    pub fn as_secs(&self) -> (s: u64)
        ensures
            s == self@ / 1_000_000_000,
    {
        proof {
            use_type_invariant(*self);
        }
        (self.nanos / NANOS_PER_SEC) as u64
    }

    /// Sum of two spans; the sum must stay representable.
    pub fn add(self, other: Duration) -> (d: Duration)
        requires
            self@ + other@ <= MAX_NANOS,
        ensures
            d@ == self@ + other@,
    {
        Duration { nanos: self.nanos + other.nanos }
    }

    /// Difference of two spans, or zero when `other` is the longer one.
    pub fn saturating_sub(self, other: Duration) -> (d: Duration)
        ensures
            d@ == if self@ >= other@ { (self@ - other@) as nat } else { 0nat },
    {
        proof {
            use_type_invariant(self);
        }
        if self.nanos >= other.nanos {
            Duration { nanos: self.nanos - other.nanos }
        } else {
            Duration { nanos: 0 }
        }
    }

    /// The span repeated `n` times; the product must stay representable.
    pub fn mul_u32(self, n: u32) -> (d: Duration)
        requires
            self@ * n <= MAX_NANOS,
        ensures
            d@ == self@ * n,
    {
        Duration { nanos: self.nanos * (n as u128) }
    }

    /// The span divided by a nonzero `n`, seconds and sub-second part divided
    /// separately with the remainder of the seconds carried over.
    pub fn div_u32(self, n: u32) -> (d: Duration)
        requires
            n > 0,
        ensures
            d@ == div_spec(self@, n as nat),
            d@ <= self@,
    {
        proof {
            use_type_invariant(self);
        }
        let secs = self.nanos / NANOS_PER_SEC;
        let sub = self.nanos % NANOS_PER_SEC;
        let nn = n as u128;
        let q = secs / nn;
        let carry = secs % nn;
        proof {
            lemma_div_parts(secs as int, sub as int, nn as int);
        }
        Duration { nanos: q * NANOS_PER_SEC + sub / nn + (carry * NANOS_PER_SEC) / nn }
    }
}

/// A reading of the system clock, in nanoseconds since the Unix epoch.
#[derive(Clone, Copy, Debug, PartialEq, Eq)]
pub struct Instant {
    nanos: u128,
}

impl View for Instant {
    type V = nat;

    closed spec fn view(&self) -> nat {
        self.nanos as nat
    }
}

/// The wall clock of the machine, as std's `SystemTime`.
#[verifier::external_type_specification]
#[verifier::external_body]
pub struct ExSystemTime(std::time::SystemTime);

/// The error of a clock reading earlier than the time it is measured from.
#[verifier::external_type_specification]
#[verifier::external_body]
pub struct ExSystemTimeError(std::time::SystemTimeError);

/// Calls `SystemTime::now`; nothing is stated of the reading, which depends
/// on the machine's clock.
#[verifier::external_body]
fn system_time_now() -> (t: std::time::SystemTime) {
    std::time::SystemTime::now()
}

/// Calls `SystemTime::duration_since(UNIX_EPOCH)`: the span since the epoch,
/// or an error when the reading is earlier; nothing more is stated.
#[verifier::external_body]
fn since_unix_epoch(t: &std::time::SystemTime) -> (r: Result<core::time::Duration, std::time::SystemTimeError>) {
    t.duration_since(std::time::UNIX_EPOCH)
}

/// Calls std's `Duration::as_nanos`; nothing is stated of the count.
#[verifier::external_body]
fn std_duration_as_nanos(d: &core::time::Duration) -> (n: u128) {
    d.as_nanos()
}

/// The system clock as nanoseconds since the Unix epoch, or 0 when the clock
/// stands before the epoch.
fn system_clock_nanos() -> (n: u128) {
    let t = system_time_now();
    match since_unix_epoch(&t) {
        Ok(d) => std_duration_as_nanos(&d),
        Err(_) => 0,
    }
}

/// `later - earlier`, or zero when `earlier` is the later one.
pub open spec fn saturating_difference(later: nat, earlier: nat) -> nat {
    if later >= earlier { (later - earlier) as nat } else { 0nat }
}

impl Instant {
    #[verifier::type_invariant]
    spec fn inv(self) -> bool {
        self.nanos <= MAX_NANOS
    }

    /// The current clock reading, capped at the largest representable span.
    pub fn now() -> (i: Instant)
        ensures
            i@ <= MAX_NANOS,
    {
        let n = system_clock_nanos();
        if n > MAX_NANOS {
            Instant { nanos: MAX_NANOS }
        } else {
            Instant { nanos: n }
        }
    }

    /// A reading taken `nanos` nanoseconds after the epoch.
    pub fn from_epoch_nanos(nanos: u64) -> (i: Instant)
        ensures
            i@ == nanos,
    {
        Instant { nanos: nanos as u128 }
    }

    /// Time from `earlier` to `self`, or zero if `earlier` is the later reading.
    pub fn duration_since(&self, earlier: Instant) -> (d: Duration)
        ensures
            d@ == if self@ >= earlier@ { (self@ - earlier@) as nat } else { 0nat },
    {
        proof {
            use_type_invariant(*self);
        }
        if self.nanos >= earlier.nanos {
            Duration { nanos: self.nanos - earlier.nanos }
        } else {
            Duration { nanos: 0 }
        }
    }

    /// Time since this reading, measured against a fresh clock reading:
    /// the difference to that reading, or zero if it is earlier.
    pub fn elapsed(&self) -> (d: Duration)
        ensures
            d@ <= MAX_NANOS,
            exists|now: nat| now <= MAX_NANOS
                && d@ == #[trigger] saturating_difference(now, self@),
    {
        let now = Instant::now();
        let d = now.duration_since(*self);
        proof {
            use_type_invariant(now);
        }
        assert(d@ == saturating_difference(now@, self@));
        d
    }

    /// Nanoseconds from the epoch to this reading.
    pub fn nanos_since_epoch(&self) -> (n: u128)
        ensures
            n == self@,
            n <= MAX_NANOS,
    {
        proof {
            use_type_invariant(*self);
        }
        self.nanos
    }

    /// Whether this reading is strictly earlier than `other`.
    pub fn is_before(&self, other: &Instant) -> (b: bool)
        ensures
            b == (self@ < other@),
    {
        self.nanos < other.nanos
    }

    /// This reading moved back by `d`, stopping at the epoch.
    pub fn saturating_sub(&self, d: Duration) -> (i: Instant)
        ensures
            i@ == if self@ >= d@ { (self@ - d@) as nat } else { 0nat },
    {
        proof {
            use_type_invariant(*self);
        }
        let dn = d.as_nanos();
        if self.nanos >= dn {
            Instant { nanos: self.nanos - dn }
        } else {
            Instant { nanos: 0 }
        }
    }
}

proof fn lemma_div_parts(secs: int, sub: int, n: int)
    requires
        n >= 1,
        secs >= 0,
        0 <= sub < 1_000_000_000,
    ensures
        (secs % n) * 1_000_000_000 / n < 1_000_000_000,
        (secs / n) * 1_000_000_000 + sub / n + ((secs % n) * 1_000_000_000) / n
            <= secs * 1_000_000_000 + sub,
        secs / n <= secs,
{
    let q = secs / n;
    let c = secs % n;
    assert(q * n + c == secs && 0 <= c < n) by (nonlinear_arith)
        requires n >= 1, q == secs / n, c == secs % n;
    assert(c * 1_000_000_000 / n < 1_000_000_000) by (nonlinear_arith)
        requires 0 <= c < n, n >= 1;
    assert(c * 1_000_000_000 / n <= c * 1_000_000_000) by (nonlinear_arith)
        requires 0 <= c, n >= 1;
    assert(sub / n <= sub) by (nonlinear_arith)
        requires 0 <= sub, n >= 1;
    assert(q <= secs) by (nonlinear_arith)
        requires q * n + c == secs, n >= 1, c >= 0, q >= 0;
    assert(q * 1_000_000_000 + c * 1_000_000_000 <= secs * 1_000_000_000) by (nonlinear_arith)
        requires q * n + c == secs, n >= 1, c >= 0, q >= 0;
}

} // verus!
