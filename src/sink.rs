//! The destination that formatted text is written into.
use vstd::prelude::*;
use vstd::string::StringExecFns;
use vstd::string::StrSliceExecFns;

verus! {

/// The one failure a sink reports: it had no room for the text it was handed.
#[derive(Clone, Copy, Debug, PartialEq, Eq)]
pub struct SinkError;

/// A text buffer with a bound on how many more characters it accepts.
///
/// A write either fits in the room that is left and is taken whole, or it does
/// not fit and the sink refuses it, unchanged.
pub struct Sink {
    buf: String,
    room: usize,
}

impl Sink {
    /// The characters written so far.
    pub closed spec fn written(&self) -> Seq<char> {
        self.buf@
    }

    /// How many more characters the sink accepts.
    pub closed spec fn room(&self) -> nat {
        self.room as nat
    }

    /// The sink takes `text` whole.
    pub open spec fn accepts(&self, text: Seq<char>) -> bool {
        text.len() <= self.room()
    }

    /// `self` became `after` by an attempt to write `text` that returned `r`:
    /// the attempt fails exactly when `text` does not fit; on success `text` is
    /// appended; on failure what was appended is a prefix of `text`. Every
    /// character appended uses up one character of room.
    pub open spec fn wrote(self, after: Sink, text: Seq<char>, r: Result<(), SinkError>) -> bool {
        &&& (r is Ok <==> self.accepts(text))
        &&& r is Ok ==> after.written() == self.written() + text
        &&& self.written().is_prefix_of(after.written())
        &&& after.written().is_prefix_of(self.written() + text)
        &&& after.written().len() + after.room() == self.written().len() + self.room()
    }

    /// An empty sink whose room is as large as a `usize` can count.
    pub fn new() -> (s: Sink)
        ensures
            s.written() == Seq::<char>::empty(),
            s.room() == usize::MAX,
    {
        Sink { buf: String::new(), room: usize::MAX }
    }

    /// An empty sink that accepts at most `limit` characters.
    pub fn with_limit(limit: usize) -> (s: Sink)
        ensures
            s.written() == Seq::<char>::empty(),
            s.room() == limit,
    {
        Sink { buf: String::new(), room: limit }
    }

    /// Appends `s` if it fits in the room that is left; refuses it otherwise,
    /// leaving the sink as it was.
    pub fn write_str(&mut self, s: &str) -> (r: Result<(), SinkError>)
        ensures
            old(self).wrote(*final(self), s@, r),
            r is Err ==> *final(self) == *old(self),
    {
        let n = s.unicode_len();
        if n <= self.room {
            self.room = self.room - n;
            self.buf.append(s);
            Ok(())
        } else {
            Err(SinkError)
        }
    }

    /// The text written so far.
    pub fn as_str(&self) -> (r: &str)
        ensures
            r@ == self.written(),
    {
        self.buf.as_str()
    }

    /// Gives up the sink for the text written into it.
    pub fn into_string(self) -> (r: String)
        ensures
            r@ == self.written(),
    {
        self.buf
    }
}

} // verus!
