//! Lengths of time and instants, held as whole nanoseconds.

use vstd::prelude::*;

verus! {

/// Nanoseconds in one second.
pub const NANOS_PER_SEC: u128 = 1_000_000_000;

/// Nanoseconds in one millisecond.
pub const NANOS_PER_MILLI: u128 = 1_000_000;

/// The longest span that can be held: `u64::MAX` seconds and 999,999,999 nanoseconds.
pub const MAX_SPAN_NANOS: u128 = 18_446_744_073_709_551_615_999_999_999;

/// A length of time. Its view is the number of nanoseconds it lasts.
#[derive(Clone, Copy, Debug, PartialEq, Eq, Structural)]
pub struct Span {
    nanos: u128,
}

impl View for Span {
    type V = nat;

    closed spec fn view(&self) -> nat {
        self.nanos as nat
    }
}

impl Span {
    /// Whether the span is one that whole seconds in a `u64` and the
    /// nanoseconds of one more second can express. Every span that the
    /// program holds is.
    #[verifier::type_invariant]
    pub closed spec fn wf(self) -> bool {
        self.nanos <= MAX_SPAN_NANOS
    }

    /// A well-formed span lasts at most `MAX_SPAN_NANOS` nanoseconds.
    pub proof fn lemma_bounded(self)
        requires
            self.wf(),
        ensures
            self@ <= MAX_SPAN_NANOS,
    {
    }

    /// Two spans are the same value exactly when they last equally long.
    pub proof fn lemma_equal_by_view(self, other: Span)
        ensures
            (self == other) <==> (self@ == other@),
    {
    }

    /// The span of no length.
    pub fn zero() -> (span: Span)
        ensures
            span@ == 0,
    {
        Span { nanos: 0 }
    }

    /// A span of `secs` whole seconds.
    pub fn from_secs(secs: u64) -> (span: Span)
        ensures
            span@ == secs * NANOS_PER_SEC,
    {
        let wide: u128 = secs as u128;
        Span { nanos: wide * NANOS_PER_SEC }
    }

    /// A span of `millis` whole milliseconds.
    pub fn from_millis(millis: u64) -> (span: Span)
        ensures
            span@ == millis * NANOS_PER_MILLI,
    {
        let wide: u128 = millis as u128;
        Span { nanos: wide * NANOS_PER_MILLI }
    }

    /// A span of `secs` seconds and `subsec_nanos` nanoseconds, where the
    /// nanoseconds stay below one second.
    pub fn from_parts(secs: u64, subsec_nanos: u32) -> (span: Option<Span>)
        ensures
            subsec_nanos < NANOS_PER_SEC ==> span.is_some() && span.unwrap()@ == secs
                * NANOS_PER_SEC + subsec_nanos,
            subsec_nanos >= NANOS_PER_SEC ==> span.is_none(),
    {
        if (subsec_nanos as u128) < NANOS_PER_SEC {
            let wide: u128 = secs as u128;
            Some(Span { nanos: wide * NANOS_PER_SEC + subsec_nanos as u128 })
        } else {
            None
        }
    }

    /// The whole seconds in the span.
    pub fn as_secs(&self) -> (secs: u64)
        ensures
            secs == self@ / (NANOS_PER_SEC as nat),
    {
        proof {
            use_type_invariant(self);
        }
        (self.nanos / NANOS_PER_SEC) as u64
    }

    /// The nanoseconds of the span beyond its whole seconds.
    pub fn subsec_nanos(&self) -> (nanos: u32)
        ensures
            nanos == self@ % (NANOS_PER_SEC as nat),
    {
        (self.nanos % NANOS_PER_SEC) as u32
    }

    /// The span in nanoseconds.
    pub fn as_nanos(&self) -> (nanos: u128)
        ensures
            nanos == self@,
            nanos <= MAX_SPAN_NANOS,
    {
        proof {
            use_type_invariant(self);
        }
        self.nanos
    }

    /// Whether the span lasts no longer than `other`.
    pub fn at_most(&self, other: &Span) -> (b: bool)
        ensures
            b == (self@ <= other@),
    {
        self.nanos <= other.nanos
    }

    /// Twice the span, but no more than `cap`.
    pub fn doubled_up_to(&self, cap: &Span) -> (span: Span)
        ensures
            span@ == if 2 * self@ <= cap@ { 2 * self@ } else { cap@ },
    {
        proof {
            use_type_invariant(self);
            use_type_invariant(cap);
        }
        let twice: u128 = self.nanos * 2;
        if twice <= cap.nanos {
            Span { nanos: twice }
        } else {
            *cap
        }
    }
}

/// A point in time. Its view is the number of nanoseconds from the start of
/// 1970 (UTC) to it, negative before that.
#[derive(Clone, Copy, Debug, PartialEq, Eq, Structural)]
pub struct Timestamp {
    nanos: i128,
}

impl View for Timestamp {
    type V = int;

    closed spec fn view(&self) -> int {
        self.nanos as int
    }
}

impl Timestamp {
    /// Whether the instant is one that whole seconds in an `i64` and
    /// nanoseconds in a `u32` can express. Every instant that the program
    /// holds is.
    #[verifier::type_invariant]
    pub closed spec fn wf(self) -> bool {
        -(i64::MAX as int + 1) * (NANOS_PER_SEC as int) <= self.nanos <= (i64::MAX as int)
            * (NANOS_PER_SEC as int) + u32::MAX as int
    }

    /// Two instants are the same value exactly when they lie equally far
    /// from the start of 1970.
    pub proof fn lemma_equal_by_view(self, other: Timestamp)
        ensures
            (self == other) <==> (self@ == other@),
    {
    }

    /// The instant `secs` seconds and `subsec_nanos` nanoseconds after the
    /// start of 1970.
    pub fn from_parts(secs: i64, subsec_nanos: u32) -> (at: Timestamp)
        ensures
            at@ == secs * NANOS_PER_SEC + subsec_nanos,
    {
        let wide: i128 = secs as i128;
        Timestamp { nanos: wide * 1_000_000_000i128 + subsec_nanos as i128 }
    }

    /// The instant `millis` milliseconds after the start of 1970.
    pub fn from_millis(millis: u64) -> (at: Timestamp)
        ensures
            at@ == millis * NANOS_PER_MILLI,
    {
        let wide: i128 = millis as i128;
        Timestamp { nanos: wide * 1_000_000i128 }
    }

    /// Nanoseconds from the start of 1970 to the instant.
    pub fn as_nanos(&self) -> (nanos: i128)
        ensures
            nanos == self@,
    {
        self.nanos
    }

    /// Whether the instant is no earlier than `other`.
    pub fn is_at_or_after(&self, other: &Timestamp) -> (b: bool)
        ensures
            b == (self@ >= other@),
    {
        self.nanos >= other.nanos
    }

    /// The later of the two instants.
    pub fn latest(self, other: Timestamp) -> (at: Timestamp)
        ensures
            at@ == if self@ >= other@ { self@ } else { other@ },
            at == self || at == other,
    {
        if self.nanos >= other.nanos {
            self
        } else {
            other
        }
    }

    /// Whether the time from `earlier` to this instant is longer than
    /// `beats` times `span`. An `earlier` that lies after this instant is no
    /// time away.
    pub fn is_more_than_after(&self, beats: u8, span: &Span, earlier: &Timestamp) -> (b: bool)
        ensures
            b == (self@ - earlier@ > beats * span@),
    {
        proof {
            use_type_invariant(self);
            use_type_invariant(earlier);
            use_type_invariant(span);
        }
        let gap: i128 = self.nanos - earlier.nanos;
        let wide: u128 = beats as u128;
        assert(wide * span.nanos <= 255 * MAX_SPAN_NANOS) by (nonlinear_arith)
            requires
                wide <= 255,
                span.nanos <= MAX_SPAN_NANOS,
        ;
        let reach: u128 = wide * span.nanos;
        gap > 0 && gap as u128 > reach
    }
}

} // verus!
