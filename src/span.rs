use vstd::prelude::*;

verus! {

/// Nanoseconds in one second.
pub const NANOS_PER_SEC: u128 = 1_000_000_000;

/// The longest span: `u64::MAX` whole seconds and 999_999_999 nanoseconds,
/// the same range as `std::time::Duration`.
pub const MAX_NANOS: u128 = 18_446_744_073_709_551_615 * 1_000_000_000 + 999_999_999;

/// A non-negative length of time, held exactly in nanoseconds.
#[derive(Clone, Copy, Debug, PartialEq, Eq, Structural)]
pub struct Span {
    nanos: u128,
}

impl Span {
    #[verifier::type_invariant]
    spec fn in_range(self) -> bool {
        self.nanos <= MAX_NANOS
    }
}

impl View for Span {
    type V = nat;

    /// The span's length in nanoseconds.
    closed spec fn view(&self) -> nat {
        self.nanos as nat
    }
}

impl Span {
    /// The span of `secs` seconds and `subsec_nanos` nanoseconds; `None` when
    /// `subsec_nanos` is a whole second or more.
    pub fn new(secs: u64, subsec_nanos: u32) -> (r: Option<Span>)
        ensures
            r is Some <==> subsec_nanos < NANOS_PER_SEC,
            r matches Some(s) ==> s@ == secs * NANOS_PER_SEC + subsec_nanos,
    {
        if (subsec_nanos as u128) < NANOS_PER_SEC {
            assert(secs * NANOS_PER_SEC <= 18_446_744_073_709_551_615 * NANOS_PER_SEC)
                by (nonlinear_arith)
                requires
                    secs <= 18_446_744_073_709_551_615u64,
            ;
            let nanos: u128 = (secs as u128) * NANOS_PER_SEC + subsec_nanos as u128;
            Some(Span { nanos })
        } else {
            None
        }
    }

    /// The span of `nanos` nanoseconds; `None` when it exceeds `MAX_NANOS`.
    pub fn from_nanos(nanos: u128) -> (r: Option<Span>)
        ensures
            r is Some <==> nanos <= MAX_NANOS,
            r matches Some(s) ==> s@ == nanos,
    {
        if nanos <= MAX_NANOS {
            Some(Span { nanos })
        } else {
            None
        }
    }

    /// The whole length in nanoseconds.
    pub fn as_nanos(&self) -> (r: u128)
        ensures
            r == self@,
            r <= MAX_NANOS,
    {
        proof {
            use_type_invariant(self);
        }
        self.nanos
    }

    /// The whole seconds in the span.
    pub fn as_secs(&self) -> (r: u64)
        ensures
            r == self@ / (NANOS_PER_SEC as nat),
    {
        proof {
            use_type_invariant(self);
        }
        (self.nanos / NANOS_PER_SEC) as u64
    }

    /// The nanoseconds past the whole seconds.
    pub fn subsec_nanos(&self) -> (r: u32)
        ensures
            r == self@ % (NANOS_PER_SEC as nat),
    {
        (self.nanos % NANOS_PER_SEC) as u32
    }

    /// Whether the span has no length.
    pub fn is_zero(&self) -> (r: bool)
        ensures
            r == (self@ == 0),
    {
        self.nanos == 0
    }
}

} // verus!
