//! The reader capability: an explicit, caller-supplied source of input bytes.

use vstd::prelude::*;

verus! {

use vstd::string::StrSliceExecFns;
use vstd::string::StringSliceAdditionalSpecFns;

use crate::failure::IoFailure;

/// A caller-supplied source of input bytes.
///
/// A source is consumed exactly once per call and is not assumed reusable;
/// its `contents` are the bytes it yields when drained to end-of-input.
pub trait Source {
    /// The bytes this source yields when drained, in order. A source with
    /// empty contents signals end-of-input immediately.
    spec fn contents(&self) -> Seq<u8>;

    /// True when draining this source will succeed.
    spec fn ready(&self) -> bool;

    /// Drain the source to end-of-input. On success the result is exactly
    /// the source's contents.
    fn read_to_end(self) -> (r: Result<Vec<u8>, IoFailure>)
        ensures
            r matches Ok(bytes) ==> bytes@ == self.contents(),
            self.ready() ==> r is Ok,
    ;
}

/// A replaying in-memory source: the test double for an input stream,
/// pre-loaded with the bytes it will yield.
pub struct BufferSource {
    data: Vec<u8>,
}

impl BufferSource {
    /// A source pre-loaded with `data`.
    pub fn new(data: Vec<u8>) -> (r: BufferSource)
        ensures
            r.contents() == data@,
            r.ready(),
    {
        BufferSource { data }
    }

    /// A source pre-loaded with the encoding of `text`.
    pub fn from_text(text: &str) -> (r: BufferSource)
        ensures
            r.contents() == text.spec_bytes(),
            r.ready(),
    {
        BufferSource { data: text.as_bytes_vec() }
    }
}

impl Source for BufferSource {
    closed spec fn contents(&self) -> Seq<u8> {
        self.data@
    }

    closed spec fn ready(&self) -> bool {
        true
    }

    fn read_to_end(self) -> (r: Result<Vec<u8>, IoFailure>) {
        Ok(self.data)
    }
}

/// A source whose read always fails: the test double for a broken input
/// channel.
pub struct FailingSource;

impl Source for FailingSource {
    closed spec fn contents(&self) -> Seq<u8> {
        Seq::empty()
    }

    closed spec fn ready(&self) -> bool {
        false
    }

    fn read_to_end(self) -> (r: Result<Vec<u8>, IoFailure>) {
        Err(IoFailure)
    }
}

} // verus!
