//! Durations: the unsigned magnitudes a parser produces, the signed durations
//! the node model holds, and the checked conversion between the two.

use vstd::prelude::*;

use crate::error::Error;
use crate::source::Offset;

verus! {

/// Nanoseconds in one second.
pub const NANOS_PER_SEC: u32 = 1_000_000_000;

/// Whole seconds in the largest signed duration.
pub const MAX_SECS: u64 = 9_223_372_036_854_775;

/// The largest signed duration, in nanoseconds: `i64::MAX` milliseconds.
pub open spec fn max_nanos() -> int {
    9_223_372_036_854_775_807_000_000
}

/// Whether `n` nanoseconds fit a signed duration. The range is symmetric, so a
/// value fits exactly when its negation does.
pub open spec fn in_range(n: int) -> bool {
    -max_nanos() <= n <= max_nanos()
}

/// An unsigned wall-clock magnitude: whole seconds and further nanoseconds.
#[derive(Debug, Clone, Copy, PartialEq, Eq, Structural)]
pub struct UnsignedDuration {
    pub secs: u64,
    pub nanos: u32,
}

impl View for UnsignedDuration {
    type V = nat;

    /// The magnitude in nanoseconds.
    open spec fn view(&self) -> nat {
        (self.secs * 1_000_000_000 + self.nanos) as nat
    }
}

/// The whole seconds in `n` nanoseconds, rounded toward zero.
pub open spec fn whole_seconds(n: int) -> int {
    if n >= 0 {
        n / 1_000_000_000
    } else {
        -((-n) / 1_000_000_000)
    }
}

/// What converting the magnitude `d` to a signed duration gives: its
/// nanoseconds, or an overflow where it exceeds the signed range.
pub open spec fn signed_nanos(d: UnsignedDuration) -> Result<int, Error> {
    if d@ <= max_nanos() {
        Ok(d@ as int)
    } else {
        Err(Error::Overflow)
    }
}

/// What converting an optional magnitude gives.
pub open spec fn opt_signed_nanos(d: Option<UnsignedDuration>) -> Result<Option<int>, Error> {
    match d {
        None => Ok(None),
        Some(d) => match signed_nanos(d) {
            Ok(n) => Ok(Some(n)),
            Err(e) => Err(e),
        },
    }
}

/// What converting the offset `o` gives: a forward shift is its magnitude, a
/// backward shift the negation of its magnitude.
pub open spec fn offset_nanos(o: Offset) -> Result<int, Error> {
    match o {
        Offset::Pos(d) => signed_nanos(d),
        Offset::Neg(d) => match signed_nanos(d) {
            Ok(n) => Ok(-n),
            Err(e) => Err(e),
        },
    }
}

/// What converting an optional offset gives.
pub open spec fn opt_offset_nanos(o: Option<Offset>) -> Result<Option<int>, Error> {
    match o {
        None => Ok(None),
        Some(o) => match offset_nanos(o) {
            Ok(n) => Ok(Some(n)),
            Err(e) => Err(e),
        },
    }
}

/// `chrono::OutOfRangeError`, carried from the conversion to where it is
/// turned into this library's own error.
#[verifier::external_type_specification]
#[verifier::external_body]
pub struct ExOutOfRangeError(chrono::OutOfRangeError);

/// Calls `chrono::TimeDelta::from_std` on the duration of `secs` seconds and
/// `nanos` nanoseconds, and reads the result back with `num_seconds` and
/// `subsec_nanos`. Unverified claim: the conversion succeeds exactly when the
/// magnitude is at most `i64::MAX` milliseconds, and then keeps both parts.
#[verifier::external_body]
fn time_delta_from_std(secs: u64, nanos: u32) -> (r: Result<(i64, i32), chrono::OutOfRangeError>)
    requires
        nanos < NANOS_PER_SEC,
    ensures
        r is Ok <==> secs * 1_000_000_000 + nanos <= max_nanos(),
        r matches Ok(parts) ==> parts.0 == secs && parts.1 == nanos,
{
    match chrono::TimeDelta::from_std(std::time::Duration::new(secs, nanos)) {
        Ok(delta) => Ok((delta.num_seconds(), delta.subsec_nanos())),
        Err(e) => Err(e),
    }
}

/// A signed duration with nanosecond precision, between `-i64::MAX` and
/// `i64::MAX` milliseconds.
///
/// Seconds and nanoseconds never disagree in sign, so the value is
/// `secs * 10^9 + nanos` and negation is negation of both parts.
#[derive(Debug, Clone, Copy, PartialEq, Eq, Structural)]
pub struct SignedDuration {
    secs: i64,
    nanos: i32,
}

impl View for SignedDuration {
    type V = int;

    /// The duration in nanoseconds.
    closed spec fn view(&self) -> int {
        self.secs * 1_000_000_000 + self.nanos
    }
}

impl SignedDuration {
    /// Seconds and nanoseconds agree in sign, the nanoseconds stay below one
    /// second, and the whole lies in the signed range.
    #[verifier::type_invariant]
    spec fn well_formed(self) -> bool {
        &&& -1_000_000_000 < self.nanos < 1_000_000_000
        &&& self.secs > 0 ==> self.nanos >= 0
        &&& self.secs < 0 ==> self.nanos <= 0
        &&& in_range(self@)
    }

    /// The duration of no time at all.
    pub fn zero() -> (r: Self)
        ensures
            r@ == 0,
    {
        SignedDuration { secs: 0, nanos: 0 }
    }

    /// Converts a magnitude to a signed duration of the same length, or
    /// reports that it does not fit.
    pub fn from_unsigned(d: UnsignedDuration) -> (r: Result<Self, Error>)
        ensures
            match r {
                Ok(v) => signed_nanos(d) == Ok::<int, Error>(v@),
                Err(e) => signed_nanos(d) == Err::<int, Error>(e),
            },
    {
        let carry: u64 = (d.nanos / NANOS_PER_SEC) as u64;
        let nanos: u32 = d.nanos % NANOS_PER_SEC;
        if d.secs > MAX_SECS {
            return Err(Error::Overflow);
        }
        let secs: u64 = d.secs + carry;
        match time_delta_from_std(secs, nanos) {
            Ok(parts) => Ok(SignedDuration { secs: parts.0, nanos: parts.1 }),
            Err(_) => Err(Error::Overflow),
        }
    }

    /// Converts an optional magnitude.
    pub fn from_opt_unsigned(d: Option<UnsignedDuration>) -> (r: Result<Option<Self>, Error>)
        ensures
            match r {
                Ok(v) => opt_signed_nanos(d) == Ok::<Option<int>, Error>(
                    crate::node::opt_duration_view(v),
                ),
                Err(e) => opt_signed_nanos(d) == Err::<Option<int>, Error>(e),
            },
    {
        match d {
            None => Ok(None),
            Some(d) => match SignedDuration::from_unsigned(d) {
                Ok(v) => Ok(Some(v)),
                Err(e) => Err(e),
            },
        }
    }

    /// The duration of the same length in the other direction. The signed
    /// range is symmetric, so this is exact for every duration.
    pub fn neg(self) -> (r: Self)
        ensures
            r@ == -self@,
            in_range(self@),
            in_range(r@),
    {
        proof {
            use_type_invariant(&self);
        }
        SignedDuration { secs: -self.secs, nanos: -self.nanos }
    }

    /// Converts an offset: `Pos(d)` to `+d`, `Neg(d)` to `-d`.
    pub fn from_offset(o: Offset) -> (r: Result<Self, Error>)
        ensures
            match r {
                Ok(v) => offset_nanos(o) == Ok::<int, Error>(v@),
                Err(e) => offset_nanos(o) == Err::<int, Error>(e),
            },
    {
        match o {
            Offset::Pos(d) => SignedDuration::from_unsigned(d),
            Offset::Neg(d) => match SignedDuration::from_unsigned(d) {
                Ok(v) => Ok(v.neg()),
                Err(e) => Err(e),
            },
        }
    }

    /// Converts an optional offset.
    pub fn from_opt_offset(o: Option<Offset>) -> (r: Result<Option<Self>, Error>)
        ensures
            match r {
                Ok(v) => opt_offset_nanos(o) == Ok::<Option<int>, Error>(
                    crate::node::opt_duration_view(v),
                ),
                Err(e) => opt_offset_nanos(o) == Err::<Option<int>, Error>(e),
            },
    {
        match o {
            None => Ok(None),
            Some(o) => match SignedDuration::from_offset(o) {
                Ok(v) => Ok(Some(v)),
                Err(e) => Err(e),
            },
        }
    }

    /// Whole seconds of the duration, rounded toward zero.
    pub fn num_seconds(&self) -> (r: i64)
        ensures
            r == whole_seconds(self@),
            in_range(self@),
    {
        proof {
            use_type_invariant(self);
        }
        self.secs
    }

    /// The nanoseconds beyond the whole seconds, with the duration's sign.
    pub fn subsec_nanos(&self) -> (r: i32)
        ensures
            r == self@ - whole_seconds(self@) * 1_000_000_000,
            in_range(self@),
    {
        proof {
            use_type_invariant(self);
        }
        self.nanos
    }

    /// The length of the duration, whichever way it points.
    pub fn magnitude(&self) -> (r: UnsignedDuration)
        ensures
            r@ == if self@ < 0 { -self@ } else { self@ },
            r.nanos < NANOS_PER_SEC,
            in_range(self@),
    {
        proof {
            use_type_invariant(self);
        }
        if self.secs < 0 || self.nanos < 0 {
            UnsignedDuration { secs: (-self.secs) as u64, nanos: (-self.nanos) as u32 }
        } else {
            UnsignedDuration { secs: self.secs as u64, nanos: self.nanos as u32 }
        }
    }

    /// Whether the duration points backward.
    pub fn is_negative(&self) -> (r: bool)
        ensures
            r == (self@ < 0),
    {
        proof {
            use_type_invariant(self);
        }
        self.secs < 0 || self.nanos < 0
    }
}

} // verus!
