//! Predefined formats.
use vstd::prelude::*;

use crate::sink::{Sink, SinkError};
use crate::Fmt;

verus! {

/// Format selector that writes a string as it is: no quotes around it and no
/// escapes inside it, where debug formatting would add both.
#[derive(Clone, Copy, Debug, PartialEq, Eq, Hash)]
pub struct Unquote;

impl Fmt<Unquote> for str {
    open spec fn formatted(&self, fopt: &Unquote) -> Seq<char> {
        self@
    }

    fn fmt(&self, sink: &mut Sink, fopt: &Unquote) -> (r: Result<(), SinkError>) {
        sink.write_str(self)
    }
}

} // verus!
