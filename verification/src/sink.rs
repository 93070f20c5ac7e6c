//! Concrete write destinations: an in-memory buffer and an always-failing
//! sink.

use vstd::prelude::*;

use crate::logger::WriteError;
use crate::logger::WriteSink;

verus! {

/// An in-memory destination: accepted bytes accumulate in a buffer, and a
/// write never fails.
pub struct MemSink {
    pub buf: Vec<u8>,
}

impl MemSink {
    /// An empty in-memory destination.
    pub fn new() -> (r: MemSink)
        ensures
            r.buf@ == Seq::<u8>::empty(),
    {
        MemSink { buf: Vec::new() }
    }
}

impl WriteSink for MemSink {
    open spec fn contents(&self) -> Seq<u8> {
        self.buf@
    }

    open spec fn infallible(&self) -> bool {
        true
    }

    fn write_all(&mut self, buf: &[u8]) -> (r: Result<(), WriteError>) {
        let n = buf.len();
        let mut i: usize = 0;
        while i < n
            invariant
                n == buf@.len(),
                i <= n,
                self.buf@ == old(self).buf@ + buf@.subrange(0, i as int),
            decreases n - i,
        {
            self.buf.push(buf[i]);
            proof {
                assert(self.buf@ =~= old(self).buf@ + buf@.subrange(0, i + 1));
            }
            i += 1;
        }
        proof {
            assert(self.buf@ =~= old(self).buf@ + buf@);
        }
        Ok(())
    }
}

/// A destination that refuses every write; it never holds any bytes.
pub struct FailSink;

impl WriteSink for FailSink {
    open spec fn contents(&self) -> Seq<u8> {
        Seq::<u8>::empty()
    }

    open spec fn infallible(&self) -> bool {
        false
    }

    fn write_all(&mut self, _buf: &[u8]) -> (r: Result<(), WriteError>)
        ensures
            r is Err,
    {
        Err(WriteError)
    }
}

} // verus!
