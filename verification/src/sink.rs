//! The output sink: the rewritten bytes that wait for the caller.
//!
//! The rewriting engine appends to the sink while it parses; the session drains it after
//! each step. Both happen inside one call into the session, one after the other, so the
//! sink needs no lock.

use vstd::prelude::*;

verus! {

/// An append-only run of bytes, emptied by `drain`.
pub struct OutputSink {
    bytes: Vec<u8>,
}

impl View for OutputSink {
    type V = Seq<u8>;

    /// The bytes appended since the sink was last drained, oldest first.
    closed spec fn view(&self) -> Seq<u8> {
        self.bytes@
    }
}

impl OutputSink {
    /// A sink that holds nothing.
    pub fn new() -> (sink: OutputSink)
        ensures
            sink@ == Seq::<u8>::empty(),
    {
        OutputSink { bytes: Vec::new() }
    }

    /// Adds `bytes` behind what the sink holds.
    pub fn append(&mut self, bytes: &[u8])
        ensures
            final(self)@ == old(self)@ + bytes@,
    {
        self.bytes.extend_from_slice(bytes);
    }

    /// Hands out all that the sink holds, in the order of arrival, and leaves it empty.
    pub fn drain(&mut self) -> (bytes: Vec<u8>)
        ensures
            bytes@ == old(self)@,
            final(self)@ == Seq::<u8>::empty(),
    {
        let mut bytes: Vec<u8> = Vec::new();
        std::mem::swap(&mut self.bytes, &mut bytes);
        bytes
    }
}

impl Default for OutputSink {
    /// A sink that holds nothing.
    fn default() -> (sink: OutputSink)
        ensures
            sink@ == Seq::<u8>::empty(),
    {
        OutputSink::new()
    }
}

} // verus!
