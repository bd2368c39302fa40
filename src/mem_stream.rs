use vstd::prelude::*;
use crate::errno::FailureKind;
use crate::stream::{available, overwrite, SeekRead, SeekWrite};

verus! {

/// A fixed-size stream over bytes held in memory. Reads past the end give
/// nothing; writes stop at the end. It never fails.
pub struct MemStream {
    data: Vec<u8>,
    pos: u64,
    flushes: Ghost<nat>,
}

impl MemStream {
    /// A stream over `data`, positioned at its start.
    pub fn new(data: Vec<u8>) -> (r: MemStream)
        ensures
            r.content() == data@,
            r.position() == 0,
            r.reliable(),
            r.flush_count() == 0,
    {
        MemStream { data, pos: 0, flushes: Ghost(0) }
    }

    /// The bytes the stream holds.
    pub fn into_inner(self) -> (r: Vec<u8>)
        ensures
            r@ == self.content(),
    {
        self.data
    }
}

impl SeekRead for MemStream {
    closed spec fn content(&self) -> Seq<u8> {
        self.data@
    }

    closed spec fn position(&self) -> nat {
        self.pos as nat
    }

    closed spec fn interruptions_left(&self) -> nat {
        0
    }

    closed spec fn reliable(&self) -> bool {
        true
    }

    fn seek_to(&mut self, pos: u64) -> (r: Result<u64, FailureKind>) {
        self.pos = pos;
        Ok(pos)
    }

    fn seek_end(&mut self) -> (r: Result<u64, FailureKind>) {
        let len = self.data.len() as u64;
        self.pos = len;
        Ok(len)
    }

    fn read_some(&mut self, max: usize) -> (r: Result<Vec<u8>, FailureKind>) {
        let len = self.data.len();
        let mut out: Vec<u8> = Vec::new();
        if self.pos >= len as u64 {
            return Ok(out);
        }
        let start = self.pos as usize;
        let end: usize = if max <= len - start {
            start + max
        } else {
            len
        };
        let mut i: usize = start;
        while i < end
            invariant
                start <= i <= end <= len == self.data@.len(),
                out@ == self.data@.subrange(start as int, i as int),
            decreases end - i,
        {
            out.push(self.data[i]);
            i = i + 1;
            proof {
                assert(out@ =~= self.data@.subrange(start as int, i as int));
            }
        }
        self.pos = end as u64;
        proof {
            assert(out@ =~= available(self.data@, start as nat, out@.len()));
        }
        Ok(out)
    }
}

impl SeekWrite for MemStream {
    closed spec fn flush_count(&self) -> nat {
        self.flushes@
    }

    fn write_some(&mut self, data: &[u8]) -> (r: Result<usize, FailureKind>)
        ensures
            old(self).position() < old(self).content().len() ==> r == Ok::<usize, FailureKind>(
                if data@.len() <= old(self).content().len() - old(self).position() {
                    data@.len() as usize
                } else {
                    (old(self).content().len() - old(self).position()) as usize
                },
            ),
    {
        let len = self.data.len();
        if self.pos >= len as u64 {
            proof {
                assert(overwrite(self.data@, self.pos as nat, data@.take(0)) =~= self.data@);
            }
            return Ok(0);
        }
        let start = self.pos as usize;
        let n: usize = if data.len() <= len - start {
            data.len()
        } else {
            len - start
        };
        let ghost before = self.data@;
        let mut j: usize = 0;
        while j < n
            invariant
                start + n <= len,
                n <= data@.len(),
                j <= n,
                self.data@.len() == len,
                self.pos == start,
                forall|k: int|
                    0 <= k < len ==> #[trigger] self.data@[k] == if start <= k < start + j {
                        data@[k - start]
                    } else {
                        before[k]
                    },
            decreases n - j,
        {
            self.data.set(start + j, data[j]);
            j = j + 1;
        }
        self.pos = (start + n) as u64;
        proof {
            assert(self.data@ =~= overwrite(before, start as nat, data@.take(n as int)));
        }
        Ok(n)
    }

    fn flush(&mut self) -> (r: Result<(), FailureKind>) {
        self.flushes = Ghost(self.flushes@ + 1);
        Ok(())
    }
}

} // verus!
