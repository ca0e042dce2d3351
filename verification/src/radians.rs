//! Angles measured in radians.
use crate::render::{render, renders};
use core::fmt::Display;
use vstd::prelude::*;
use vstd::std_specs::cmp::{PartialEqSpec, PartialEqSpecImpl};
use vstd::std_specs::convert::{FromSpec, FromSpecImpl, IntoSpec};

verus! {

/// An angle in radians: two pi make one full turn.
///
/// The payload is kept as given. It may be negative or exceed a full turn;
/// nothing is normalised.
#[derive(Copy, Clone, Debug)]
pub struct Rad<N>(pub N);

impl<N: Copy> Rad<N> {
    /// The payload, unchanged.
    #[inline]
    pub fn value(&self) -> (value: N)
        ensures
            value == self.0,
    {
        self.0
    }
}

impl<N: Display> Rad<N> {
    /// The payload's own text between round brackets, as in `(1.5)`.
    pub fn to_string(&self) -> (text: String)
        ensures
            renders(&self.0, text@),
    {
        render(&self.0)
    }
}

/// Two angles of one unit are equal exactly when their payloads are, by the
/// payload's own `==`: an angle whose payload equals nothing, itself
/// included, equals no angle either.
impl<N: PartialEq> PartialEq for Rad<N> {
    #[inline]
    fn eq(&self, other: &Rad<N>) -> (equal: bool)
        ensures
            call_ensures(N::eq, (&self.0, &other.0), equal),
    {
        self.0 == other.0
    }
}

impl<N: PartialEq> PartialEqSpecImpl for Rad<N> {
    open spec fn obeys_eq_spec() -> bool {
        N::obeys_eq_spec()
    }

    open spec fn eq_spec(&self, other: &Rad<N>) -> bool {
        self.0.eq_spec(&other.0)
    }
}

/// A bare payload is read as already being in radians.
impl<N> From<N> for Rad<N> {
    #[inline]
    fn from(value: N) -> (angle: Rad<N>) {
        Rad(value)
    }
}

impl<N> FromSpecImpl<N> for Rad<N> {
    open spec fn obeys_from_spec() -> bool {
        true
    }

    open spec fn from_spec(value: N) -> Rad<N> {
        Rad(value)
    }
}

/// A bare payload handed in where radians are wanted gives the same angle
/// as the explicit wrapper around it, by `from` and by `into` alike, and
/// that angle carries the payload unchanged.
pub proof fn bare_payload_is_radians<N>(payload: N)
    ensures
        <Rad<N> as FromSpec<N>>::obeys_from_spec(),
        <Rad<N> as FromSpec<N>>::from_spec(payload) == Rad(payload),
        <N as IntoSpec<Rad<N>>>::obeys_into_spec(),
        <N as IntoSpec<Rad<N>>>::into_spec(payload) == Rad(payload),
        <Rad<N> as FromSpec<N>>::from_spec(payload).0 == payload,
{
}

} // verus!
