//! Non-negative spans of time, held as whole seconds and a nanosecond remainder.
use vstd::prelude::*;

verus! {

/// A span of time: whole seconds plus a nanosecond remainder below one second.
/// Its view is its total length in nanoseconds.
#[derive(Clone, Copy, Debug)]
pub struct TimeSpan {
    secs: u64,
    nanos: u32,
}

impl View for TimeSpan {
    type V = nat;

    closed spec fn view(&self) -> nat {
        (self.secs * 1_000_000_000 + self.nanos) as nat
    }
}

/// The whole number of milliseconds in a span of `total_nanos` nanoseconds.
pub open spec fn millis_of(total_nanos: nat) -> nat {
    total_nanos / 1_000_000
}

impl TimeSpan {
    #[verifier::type_invariant]
    spec fn nanos_below_one_second(self) -> bool {
        self.nanos < 1_000_000_000
    }

    /// The whole seconds in the span.
    pub closed spec fn spec_secs(self) -> u64 {
        self.secs
    }

    /// The nanoseconds beyond the whole seconds.
    pub closed spec fn spec_subsec_nanos(self) -> u32 {
        self.nanos
    }

    /// The empty span.
    pub fn zero() -> (r: TimeSpan)
        ensures
            r@ == 0,
    {
        TimeSpan { secs: 0, nanos: 0 }
    }

    /// A span of `secs` whole seconds and `nanos` nanoseconds, `nanos` below one second.
    pub fn from_parts(secs: u64, nanos: u32) -> (r: TimeSpan)
        requires
            nanos < 1_000_000_000,
        ensures
            r@ == secs * 1_000_000_000 + nanos,
            r.spec_secs() == secs,
            r.spec_subsec_nanos() == nanos,
    {
        TimeSpan { secs, nanos }
    }

    /// A span of `secs` whole seconds.
    pub fn from_secs(secs: u64) -> (r: TimeSpan)
        ensures
            r@ == secs * 1_000_000_000,
    {
        TimeSpan { secs, nanos: 0 }
    }

    /// A span of `millis` milliseconds.
    pub fn from_millis(millis: u64) -> (r: TimeSpan)
        ensures
            r@ == millis * 1_000_000,
            millis_of(r@) == millis,
    {
        let secs = millis / 1000;
        let rem = millis % 1000;
        assert(rem * 1_000_000 < 1_000_000_000) by (nonlinear_arith)
            requires
                rem < 1000,
        ;
        let nanos = (rem * 1_000_000) as u32;
        let r = TimeSpan { secs, nanos };
        assert(secs * 1_000_000_000 + nanos == millis * 1_000_000) by (nonlinear_arith)
            requires
                secs == millis / 1000,
                nanos == (millis % 1000) * 1_000_000,
        ;
        assert((millis * 1_000_000) / 1_000_000 == millis) by (nonlinear_arith);
        r
    }

    /// The whole seconds in the span.
    pub fn secs(&self) -> (r: u64)
        ensures
            r == self.spec_secs(),
    {
        self.secs
    }

    /// The nanoseconds beyond the whole seconds.
    pub fn subsec_nanos(&self) -> (r: u32)
        ensures
            r == self.spec_subsec_nanos(),
            r < 1_000_000_000,
    {
        proof {
            use_type_invariant(self);
        }
        self.nanos
    }

    /// The whole number of milliseconds in the span.
    pub fn as_millis(&self) -> (r: u128)
        ensures
            r == millis_of(self@),
    {
        proof {
            use_type_invariant(self);
            let s = self.secs as int;
            let n = self.nanos as int;
            assert((s * 1_000_000_000 + n) / 1_000_000 == s * 1000 + n / 1_000_000)
                by (nonlinear_arith)
                requires
                    0 <= n < 1_000_000_000,
                    0 <= s,
            ;
        }
        self.secs as u128 * 1000 + (self.nanos / 1_000_000) as u128
    }

    /// Whether this span is at least as long as `other`.
    pub fn at_least(&self, other: &TimeSpan) -> (r: bool)
        ensures
            r == (self@ >= other@),
    {
        proof {
            use_type_invariant(self);
            use_type_invariant(other);
        }
        if self.secs != other.secs {
            proof {
                if self.secs > other.secs {
                    assert(self.secs * 1_000_000_000 >= (other.secs + 1) * 1_000_000_000)
                        by (nonlinear_arith)
                        requires
                            self.secs >= other.secs + 1,
                    ;
                } else {
                    assert(other.secs * 1_000_000_000 >= (self.secs + 1) * 1_000_000_000)
                        by (nonlinear_arith)
                        requires
                            other.secs >= self.secs + 1,
                    ;
                }
            }
            self.secs > other.secs
        } else {
            self.nanos >= other.nanos
        }
    }
}

/// The text with which std's `{:.1}` formatting renders a span of `total_nanos`
/// nanoseconds taken in seconds as a floating-point number (`Duration::as_secs_f64`).
pub uninterp spec fn one_decimal_seconds(total_nanos: nat) -> Seq<char>;

/// Calls `Duration::as_secs_f64` on the span and formats the number with std's `{:.1}`.
/// The text is claimed to be `one_decimal_seconds` of the span, nothing more.
#[verifier::external_body]
pub(crate) fn seconds_one_decimal(span: &TimeSpan) -> (text: String)
    ensures
        text@ == one_decimal_seconds(span@),
{
    format!("{:.1}", std::time::Duration::new(span.secs, span.nanos).as_secs_f64())
}

/// Calls `Duration::as_secs`: the whole seconds of the duration. The duration is opaque
/// here, so nothing is claimed of the number.
#[verifier::external_body]
pub(crate) fn duration_secs(d: &std::time::Duration) -> u64 {
    d.as_secs()
}

/// Calls `Duration::subsec_nanos`: the nanoseconds beyond the whole seconds, documented
/// to be below one second.
#[verifier::external_body]
pub(crate) fn duration_subsec_nanos(d: &std::time::Duration) -> (nanos: u32)
    ensures
        nanos < 1_000_000_000,
{
    d.subsec_nanos()
}

} // verus!
