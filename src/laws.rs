//! Facts that relate several formatting calls.
use vstd::prelude::*;

use crate::sink::{Sink, SinkError};
use crate::wrapper::Wrapper;
use crate::Fmt;

verus! {

/// Formatting is deterministic: two calls that format `value` under `fopt`
/// and both succeed append the same text, and two such calls into sinks with
/// the same room either both succeed or both fail.
pub proof fn lemma_fmt_deterministic<F: ?Sized, T: ?Sized + Fmt<F>>(
    value: &T,
    fopt: &F,
    before1: Sink,
    after1: Sink,
    r1: Result<(), SinkError>,
    before2: Sink,
    after2: Sink,
    r2: Result<(), SinkError>,
)
    requires
        before1.wrote(after1, value.formatted(fopt), r1),
        before2.wrote(after2, value.formatted(fopt), r2),
    ensures
        r1 is Ok && r2 is Ok ==> after1.written().skip(before1.written().len() as int)
            == after2.written().skip(before2.written().len() as int),
        before1.room() == before2.room() ==> (r1 is Ok <==> r2 is Ok),
{
    if r1 is Ok && r2 is Ok {
        assert(after1.written().skip(before1.written().len() as int) =~= value.formatted(fopt));
        assert(after2.written().skip(before2.written().len() as int) =~= value.formatted(fopt));
    }
}

/// Formatting through a shared or a mutable reference gives the same text as
/// formatting the referent. As `T` may itself be a reference, this holds at any
/// depth of nesting.
pub proof fn lemma_reference_transparent<F: ?Sized, T: ?Sized + Fmt<F>>(
    value: &T,
    shared: &&T,
    unique: &&mut T,
    fopt: &F,
)
    requires
        *shared == value,
        &**unique == value,
    ensures
        shared.formatted(fopt) == value.formatted(fopt),
        unique.formatted(fopt) == value.formatted(fopt),
{
}

/// A wrapper formats its value as the value itself would be formatted, through
/// however many references the value is held.
pub proof fn lemma_wrapper_transparent<F: ?Sized, T: ?Sized + Fmt<F>>(
    direct: Wrapper<'_, F, T>,
    nested: Wrapper<'_, F, &T>,
)
    requires
        *nested.value() == direct.value(),
        nested.fopt() == direct.fopt(),
    ensures
        nested.formatted() == direct.formatted(),
{
}

} // verus!
