//! Pairing a value with a selector, and the entry points that format the pair.
use vstd::prelude::*;
use vstd::std_specs::cmp::PartialEqSpec;

use crate::sink::{Sink, SinkError};
use crate::Fmt;

verus! {

/// A borrowed value paired with a borrowed selector, so that the value is
/// formatted by its [`Fmt<F>`](Fmt) implementation through the display and debug
/// entry points.
///
/// Build it with [`refmt`](crate::refmt) or [`Refmt::refmt`](crate::Refmt::refmt).
/// Two wrappers are equal when their values are equal and their selectors are
/// equal.
pub struct Wrapper<'a, F: ?Sized, T: ?Sized> {
    value: &'a T,
    fopt: &'a F,
}

impl<'a, F: ?Sized, T: ?Sized> Wrapper<'a, F, T> {
    /// The value held.
    pub closed spec fn value(&self) -> &'a T {
        self.value
    }

    /// The selector held.
    pub closed spec fn fopt(&self) -> &'a F {
        self.fopt
    }

    /// Pairs `value` with `fopt`.
    pub(crate) fn pair(fopt: &'a F, value: &'a T) -> (w: Wrapper<'a, F, T>)
        ensures
            w.value() == value,
            w.fopt() == fopt,
    {
        Wrapper { value, fopt }
    }
}

impl<'a, F: ?Sized, T: ?Sized + Fmt<F>> Wrapper<'a, F, T> {
    /// The text of the held value under the held selector.
    pub open spec fn formatted(&self) -> Seq<char> {
        self.value().formatted(self.fopt())
    }

    /// The display entry point: formats the held value under the held selector.
    /// Fails exactly when the sink has no room for the text.
    pub fn fmt_display(&self, sink: &mut Sink) -> (r: Result<(), SinkError>)
        ensures
            old(sink).wrote(*final(sink), self.formatted(), r),
    {
        self.value.fmt(sink, self.fopt)
    }

    /// The debug entry point: the same text as the display entry point.
    pub fn fmt_debug(&self, sink: &mut Sink) -> (r: Result<(), SinkError>)
        ensures
            old(sink).wrote(*final(sink), self.formatted(), r),
    {
        self.value.fmt(sink, self.fopt)
    }

    /// The text of the held value under the held selector, as a `String`.
    pub fn to_string(&self) -> (s: String)
        requires
            self.formatted().len() <= usize::MAX,
        ensures
            s@ == self.formatted(),
    {
        let mut sink = Sink::new();
        let _ = self.fmt_display(&mut sink);
        sink.into_string()
    }
}

impl<'a, F: ?Sized + PartialEq, T: ?Sized + PartialEq> PartialEq for Wrapper<'a, F, T> {
    /// Equal when the values are equal and the selectors are equal.
    fn eq(&self, other: &Self) -> (r: bool)
        ensures
            <T as PartialEqSpec>::obeys_eq_spec() && <F as PartialEqSpec>::obeys_eq_spec() ==> (r
                <==> (<T as PartialEqSpec>::eq_spec(self.value(), other.value())
                && <F as PartialEqSpec>::eq_spec(self.fopt(), other.fopt()))),
    {
        self.value.eq(other.value) && self.fopt.eq(other.fopt)
    }
}

impl<'a, F: ?Sized + PartialEq, T: ?Sized + PartialEq> vstd::std_specs::cmp::PartialEqSpecImpl for
    Wrapper<'a, F, T> {
    open spec fn obeys_eq_spec() -> bool {
        <T as PartialEqSpec>::obeys_eq_spec() && <F as PartialEqSpec>::obeys_eq_spec()
    }

    open spec fn eq_spec(&self, other: &Self) -> bool {
        <T as PartialEqSpec>::eq_spec(self.value(), other.value())
            && <F as PartialEqSpec>::eq_spec(self.fopt(), other.fopt())
    }
}

impl<'a, F: ?Sized + Eq, T: ?Sized + Eq> Eq for Wrapper<'a, F, T> {
}

} // verus!
