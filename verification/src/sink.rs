//! The writer capability: an explicit, caller-supplied sink of text.

use vstd::prelude::*;

verus! {

use vstd::string::StringExecFns;

use crate::failure::IoFailure;

/// A caller-supplied sink of text.
///
/// A sink either accepts a write in full or rejects it without effect; its
/// `contents` are the text accepted so far. Ownership stays with the caller:
/// operations borrow the sink for the duration of one call.
pub trait Sink {
    /// The text the sink has accepted so far.
    spec fn contents(&self) -> Seq<char>;

    /// True when every further write and flush on this sink will succeed.
    spec fn ready(&self) -> bool;

    /// Append `text` to the sink. On success the contents grow by exactly
    /// `text`; a rejected write leaves them unchanged.
    fn write_str(&mut self, text: &str) -> (r: Result<(), IoFailure>)
        ensures
            r is Ok ==> final(self).contents() == old(self).contents() + text@,
            r is Err ==> final(self).contents() == old(self).contents(),
            old(self).ready() ==> r is Ok && final(self).ready(),
    ;

    /// Force delivery of buffered output. A flush never adds to the contents,
    /// however often it is repeated.
    fn flush(&mut self) -> (r: Result<(), IoFailure>)
        ensures
            final(self).contents() == old(self).contents(),
            old(self).ready() ==> r is Ok && final(self).ready(),
    ;
}

/// A capturing in-memory sink: the test double for an output stream. It
/// accepts every write.
pub struct BufferSink {
    buffer: String,
}

impl BufferSink {
    /// An empty sink.
    pub fn new() -> (r: BufferSink)
        ensures
            r.contents() == Seq::<char>::empty(),
            r.ready(),
    {
        BufferSink { buffer: String::new() }
    }

    /// The text captured so far.
    pub fn as_str(&self) -> (r: &str)
        ensures
            r@ == self.contents(),
    {
        self.buffer.as_str()
    }
}

impl Sink for BufferSink {
    closed spec fn contents(&self) -> Seq<char> {
        self.buffer@
    }

    closed spec fn ready(&self) -> bool {
        true
    }

    fn write_str(&mut self, text: &str) -> (r: Result<(), IoFailure>) {
        self.buffer.append(text);
        Ok(())
    }

    fn flush(&mut self) -> (r: Result<(), IoFailure>) {
        Ok(())
    }
}

/// A sink that rejects every write and flush: the test double for a broken
/// output channel. Its contents stay empty.
pub struct FailingSink;

impl Sink for FailingSink {
    closed spec fn contents(&self) -> Seq<char> {
        Seq::empty()
    }

    closed spec fn ready(&self) -> bool {
        false
    }

    fn write_str(&mut self, _text: &str) -> (r: Result<(), IoFailure>) {
        Err(IoFailure)
    }

    fn flush(&mut self) -> (r: Result<(), IoFailure>) {
        Err(IoFailure)
    }
}

} // verus!
