//! Angles measured in degrees.
use crate::render::{render, renders};
use core::fmt::Display;
use vstd::prelude::*;
use vstd::std_specs::cmp::{PartialEqSpec, PartialEqSpecImpl};
use vstd::std_specs::convert::{FromSpec, FromSpecImpl, IntoSpec};

verus! {

/// An angle in degrees: 360 make one full turn.
///
/// The payload is kept as given. It may be negative or exceed a full turn;
/// nothing is normalised.
#[derive(Copy, Clone, Debug)]
pub struct Deg<N>(pub N);

impl<N: Copy> Deg<N> {
    /// The payload, unchanged.
    #[inline]
    pub fn value(&self) -> (value: N)
        ensures
            value == self.0,
    {
        self.0
    }
}

impl<N: Display> Deg<N> {
    /// The payload's own text between round brackets, as in `(45)`.
    pub fn to_string(&self) -> (text: String)
        ensures
            renders(&self.0, text@),
    {
        render(&self.0)
    }
}

/// Two angles of one unit are equal exactly when their payloads are, by the
/// payload's own `==`: an angle whose payload equals nothing, itself
/// included, equals no angle either.
impl<N: PartialEq> PartialEq for Deg<N> {
    #[inline]
    fn eq(&self, other: &Deg<N>) -> (equal: bool)
        ensures
            call_ensures(N::eq, (&self.0, &other.0), equal),
    {
        self.0 == other.0
    }
}

impl<N: PartialEq> PartialEqSpecImpl for Deg<N> {
    open spec fn obeys_eq_spec() -> bool {
        N::obeys_eq_spec()
    }

    open spec fn eq_spec(&self, other: &Deg<N>) -> bool {
        self.0.eq_spec(&other.0)
    }
}

/// A bare payload is read as already being in degrees.
impl<N> From<N> for Deg<N> {
    #[inline]
    fn from(value: N) -> (angle: Deg<N>) {
        Deg(value)
    }
}

impl<N> FromSpecImpl<N> for Deg<N> {
    open spec fn obeys_from_spec() -> bool {
        true
    }

    open spec fn from_spec(value: N) -> Deg<N> {
        Deg(value)
    }
}

/// A bare payload handed in where degrees are wanted gives the same angle
/// as the explicit wrapper around it, by `from` and by `into` alike, and
/// that angle carries the payload unchanged.
pub proof fn bare_payload_is_degrees<N>(payload: N)
    ensures
        <Deg<N> as FromSpec<N>>::obeys_from_spec(),
        <Deg<N> as FromSpec<N>>::from_spec(payload) == Deg(payload),
        <N as IntoSpec<Deg<N>>>::obeys_into_spec(),
        <N as IntoSpec<Deg<N>>>::into_spec(payload) == Deg(payload),
        <Deg<N> as FromSpec<N>>::from_spec(payload).0 == payload,
{
}

} // verus!
