//! Many ways to format one value, each picked by a selector type.
//!
//! A value type `T` declares that it can be formatted under a selector `F` by
//! implementing [`Fmt<F>`](Fmt). The selector may be a plain marker or may carry
//! options. [`refmt`] (or the method [`Refmt::refmt`]) pairs a borrowed value with a
//! borrowed selector in a [`Wrapper`], whose display and debug entry points write the
//! value's text into a [`Sink`].
//!
//! Every formatting operation fails only when the sink refuses the text: the
//! contract of [`Fmt::fmt`] pins down the text written and says exactly when the
//! sink runs out of room.
use vstd::prelude::*;

pub mod formats;
pub mod laws;
pub mod sink;
pub mod wrapper;

pub use sink::{Sink, SinkError};
pub use wrapper::Wrapper;

verus! {

/// The capability of `Self` to be formatted under the selector type `F`.
///
/// `F` may carry formatting options, or may be a unit struct that only picks
/// the implementation.
pub trait Fmt<F: ?Sized> {
    /// The text that `self` renders to under `fopt`.
    spec fn formatted(&self, fopt: &F) -> Seq<char>;

    /// Formats `self` as `fopt` specifies into `sink`.
    ///
    /// Fails if and only if the sink refuses the text: exactly when
    /// `self.formatted(fopt)` does not fit in the room the sink has left. No
    /// other failure is possible; a value that cannot be rendered meaningfully
    /// must say so in its text.
    fn fmt(&self, sink: &mut Sink, fopt: &F) -> (r: Result<(), SinkError>)
        ensures
            old(sink).wrote(*final(sink), self.formatted(fopt), r),
    ;
}

/// Forwards to the referent.
impl<'b, F: ?Sized, T: ?Sized + Fmt<F>> Fmt<F> for &'b T {
    open spec fn formatted(&self, fopt: &F) -> Seq<char> {
        (**self).formatted(fopt)
    }

    fn fmt(&self, sink: &mut Sink, fopt: &F) -> (r: Result<(), SinkError>) {
        (**self).fmt(sink, fopt)
    }
}

/// Forwards to the referent.
impl<'b, F: ?Sized, T: ?Sized + Fmt<F>> Fmt<F> for &'b mut T {
    open spec fn formatted(&self, fopt: &F) -> Seq<char> {
        (**self).formatted(fopt)
    }

    fn fmt(&self, sink: &mut Sink, fopt: &F) -> (r: Result<(), SinkError>) {
        (**self).fmt(sink, fopt)
    }
}

/// Pairs `value` with the selector `fopt`, so that formatting the result
/// formats `value` by its [`Fmt<F>`](Fmt) implementation.
///
/// The same operation is the method [`Refmt::refmt`].
pub fn refmt<'a, F: ?Sized, T: ?Sized + Fmt<F>>(fopt: &'a F, value: &'a T) -> (w: Wrapper<'a, F, T>)
    ensures
        w.value() == value,
        w.fopt() == fopt,
        w.formatted() == value.formatted(fopt),
{
    Wrapper::pair(fopt, value)
}

/// The method form of [`refmt`], present on every value that implements
/// [`Fmt<F>`](Fmt).
///
/// `F` is a parameter of the trait, not of the method, so that method lookup
/// finds `refmt` through dereferencing: a smart pointer or any type that
/// dereferences to a formattable value can call it directly.
pub trait Refmt<F: ?Sized>: Fmt<F> {
    /// Pairs `self` with the selector `fopt`.
    fn refmt<'a>(&'a self, fopt: &'a F) -> (w: Wrapper<'a, F, Self>)
        ensures
            w.value() == self,
            w.fopt() == fopt,
            w.formatted() == self.formatted(fopt),
    ;
}

impl<F: ?Sized, T: ?Sized + Fmt<F>> Refmt<F> for T {
    fn refmt<'a>(&'a self, fopt: &'a F) -> (w: Wrapper<'a, F, Self>) {
        Wrapper::pair(fopt, self)
    }
}

} // verus!
