use vstd::prelude::*;
use crate::attr::{
    attributes_for, ceil_blocks, spec_attributes, spec_ttl, ttl, FileAttributes, Timestamp,
};
use crate::errno::{code_erofs, errmap, spec_einval, spec_erofs, spec_errmap, FailureKind};
use crate::stream::{available, overwrite, read_up_to, write_up_to, SeekRead, SeekWrite};

verus! {

/// A read-only filesystem whose one file is the wrapped stream.
///
/// Taking `&mut self` for every operation that moves the stream keeps each
/// seek and the transfer after it under one exclusive borrow.
pub struct ReadSeekFs<F: SeekRead> {
    file: F,
    fa: FileAttributes,
}

impl<F: SeekRead> ReadSeekFs<F> {
    /// The wrapped stream.
    pub closed spec fn stream(self) -> F {
        self.file
    }

    /// The attributes record, fixed at construction.
    pub closed spec fn attributes(self) -> FileAttributes {
        self.fa
    }

    /// Wraps `f`, measuring its length once and describing it in blocks of
    /// `bs` bytes; the stream is left at offset zero.
    pub fn new(f: F, bs: usize) -> (r: Result<ReadSeekFs<F>, FailureKind>)
        requires
            bs > 0,
        ensures
            r is Ok ==> {
                let fs = r->Ok_0;
                &&& fs.stream().content() == f.content()
                &&& fs.stream().position() == 0
                &&& fs.attributes() == spec_attributes(
                    f.content().len() as u64,
                    ceil_blocks(f.content().len(), bs as nat) as u64,
                )
            },
            f.reliable() ==> r is Ok && r->Ok_0.stream().reliable(),
    {
        let mut f = f;
        let len = f.seek_end()?;
        f.seek_to(0)?;
        let fa = attributes_for(len, bs as u64);
        Ok(ReadSeekFs { file: f, fa })
    }

    /// Moves the stream to `offset`; a negative offset is refused without
    /// touching the stream.
    pub(crate) fn seek(&mut self, offset: i64) -> (r: Result<(), FailureKind>)
        ensures
            final(self).attributes() == old(self).attributes(),
            final(self).stream().content() == old(self).stream().content(),
            offset < 0 ==> r == Err::<(), FailureKind>(FailureKind::InvalidInput) && *final(self)
                == *old(self),
            r is Ok ==> offset >= 0 && final(self).stream().position() == offset,
            old(self).stream().reliable() ==> final(self).stream().reliable(),
            old(self).stream().reliable() && offset >= 0 ==> r is Ok,
    {
        if offset < 0 {
            return Err(FailureKind::InvalidInput);
        }
        self.file.seek_to(offset as u64)?;
        Ok(())
    }

    /// Reads up to `size` bytes at `offset`: the bytes of the stream from
    /// there on, cut at `size` and at the end of the stream.
    pub fn seek_and_read(&mut self, offset: i64, size: usize) -> (r: Result<Vec<u8>, FailureKind>)
        ensures
            final(self).attributes() == old(self).attributes(),
            final(self).stream().content() == old(self).stream().content(),
            offset < 0 ==> r == Err::<Vec<u8>, FailureKind>(FailureKind::InvalidInput)
                && *final(self) == *old(self),
            r is Ok ==> offset >= 0 && r->Ok_0@ == available(
                old(self).stream().content(),
                offset as nat,
                size as nat,
            ),
            old(self).stream().reliable() ==> final(self).stream().reliable(),
            old(self).stream().reliable() && offset >= 0 ==> r is Ok,
    {
        self.seek(offset)?;
        read_up_to(&mut self.file, size)
    }

    /// Resolves any name to the one file: the freshness duration, its
    /// attributes and generation zero.
    pub fn lookup(&self) -> (r: (Timestamp, FileAttributes, u64))
        ensures
            r == (spec_ttl(), self.attributes(), 0u64),
    {
        (ttl(), self.fa, 0)
    }

    /// The freshness duration and the attributes of the file.
    pub fn getattr(&self) -> (r: (Timestamp, FileAttributes))
        ensures
            r == (spec_ttl(), self.attributes()),
    {
        (ttl(), self.fa)
    }

    /// Answers a read request: the bytes at `offset`, or the protocol's
    /// error code.
    pub fn read(&mut self, offset: i64, size: u32) -> (r: Result<Vec<u8>, i32>)
        ensures
            final(self).attributes() == old(self).attributes(),
            final(self).stream().content() == old(self).stream().content(),
            offset < 0 ==> r == Err::<Vec<u8>, i32>(spec_einval()) && *final(self) == *old(self),
            r is Ok ==> offset >= 0 && r->Ok_0@ == available(
                old(self).stream().content(),
                offset as nat,
                size as nat,
            ),
            r is Err ==> exists|k: FailureKind| r->Err_0 == spec_errmap(k),
            old(self).stream().reliable() ==> final(self).stream().reliable(),
            old(self).stream().reliable() && offset >= 0 ==> r is Ok,
    {
        match self.seek_and_read(offset, size as usize) {
            Ok(buf) => Ok(buf),
            Err(e) => Err(errmap(e)),
        }
    }

    /// Refuses every write: the file system is read-only.
    pub fn write(&self, _offset: i64, _data: &[u8]) -> (r: Result<usize, i32>)
        ensures
            r == Err::<usize, i32>(spec_erofs()),
    {
        Err(code_erofs())
    }

    /// Refuses every attribute change: the file system is read-only.
    pub fn setattr(&self) -> (r: Result<(Timestamp, FileAttributes), i32>)
        ensures
            r == Err::<(Timestamp, FileAttributes), i32>(spec_erofs()),
    {
        Err(code_erofs())
    }
}

/// A writable filesystem whose one file is the wrapped stream; it holds a
/// read-only one and adds the write path.
pub struct ReadWriteSeekFs<F: SeekWrite>(ReadSeekFs<F>);

impl<F: SeekWrite> ReadWriteSeekFs<F> {
    /// The wrapped stream.
    pub closed spec fn stream(self) -> F {
        self.0.stream()
    }

    /// The attributes record, fixed at construction.
    pub closed spec fn attributes(self) -> FileAttributes {
        self.0.attributes()
    }

    /// Wraps `f`, measuring its length once and describing it in blocks of
    /// `bs` bytes; the stream is left at offset zero.
    pub fn new(f: F, bs: usize) -> (r: Result<ReadWriteSeekFs<F>, FailureKind>)
        requires
            bs > 0,
        ensures
            r is Ok ==> {
                let fs = r->Ok_0;
                &&& fs.stream().content() == f.content()
                &&& fs.stream().position() == 0
                &&& fs.attributes() == spec_attributes(
                    f.content().len() as u64,
                    ceil_blocks(f.content().len(), bs as nat) as u64,
                )
            },
            f.reliable() ==> r is Ok && r->Ok_0.stream().reliable(),
    {
        Ok(ReadWriteSeekFs(ReadSeekFs::new(f, bs)?))
    }

    /// Writes `data` at `offset` and returns how many bytes the stream
    /// took; those now stand at `offset`.
    pub fn seek_and_write(&mut self, offset: i64, data: &[u8]) -> (r: Result<usize, FailureKind>)
        ensures
            final(self).attributes() == old(self).attributes(),
            offset < 0 ==> r == Err::<usize, FailureKind>(FailureKind::InvalidInput) && *final(self)
                == *old(self),
            r is Ok ==> offset >= 0 && r->Ok_0 <= data@.len() && final(self).stream().content()
                == overwrite(old(self).stream().content(), offset as nat, data@.take(r->Ok_0 as int)),
            old(self).stream().reliable() ==> final(self).stream().reliable(),
            old(self).stream().reliable() && offset >= 0 ==> r is Ok,
            old(self).stream().reliable() && offset >= 0 && offset + data@.len() <= old(
                self,
            ).stream().content().len() ==> r == Ok::<usize, FailureKind>(data@.len() as usize),
    {
        self.0.seek(offset)?;
        write_up_to(&mut self.0.file, data)
    }

    /// Resolves any name to the one file: the freshness duration, its
    /// attributes and generation zero.
    pub fn lookup(&self) -> (r: (Timestamp, FileAttributes, u64))
        ensures
            r == (spec_ttl(), self.attributes(), 0u64),
    {
        self.0.lookup()
    }

    /// The freshness duration and the attributes of the file.
    pub fn getattr(&self) -> (r: (Timestamp, FileAttributes))
        ensures
            r == (spec_ttl(), self.attributes()),
    {
        self.0.getattr()
    }

    /// Answers a read request: the bytes at `offset`, or the protocol's
    /// error code.
    pub fn read(&mut self, offset: i64, size: u32) -> (r: Result<Vec<u8>, i32>)
        ensures
            final(self).attributes() == old(self).attributes(),
            final(self).stream().content() == old(self).stream().content(),
            offset < 0 ==> r == Err::<Vec<u8>, i32>(spec_einval()) && *final(self) == *old(self),
            r is Ok ==> offset >= 0 && r->Ok_0@ == available(
                old(self).stream().content(),
                offset as nat,
                size as nat,
            ),
            r is Err ==> exists|k: FailureKind| r->Err_0 == spec_errmap(k),
            old(self).stream().reliable() ==> final(self).stream().reliable(),
            old(self).stream().reliable() && offset >= 0 ==> r is Ok,
    {
        self.0.read(offset, size)
    }

    /// Answers a write request: how many bytes of `data` were written at
    /// `offset`, or the protocol's error code.
    pub fn write(&mut self, offset: i64, data: &[u8]) -> (r: Result<usize, i32>)
        ensures
            final(self).attributes() == old(self).attributes(),
            offset < 0 ==> r == Err::<usize, i32>(spec_einval()) && *final(self) == *old(self),
            r is Ok ==> offset >= 0 && r->Ok_0 <= data@.len() && final(self).stream().content()
                == overwrite(old(self).stream().content(), offset as nat, data@.take(r->Ok_0 as int)),
            r is Err ==> exists|k: FailureKind| r->Err_0 == spec_errmap(k),
            old(self).stream().reliable() ==> final(self).stream().reliable(),
            old(self).stream().reliable() && offset >= 0 ==> r is Ok,
            old(self).stream().reliable() && offset >= 0 && offset + data@.len() <= old(
                self,
            ).stream().content().len() ==> r == Ok::<usize, i32>(data@.len() as usize),
    {
        match self.seek_and_write(offset, data) {
            Ok(n) => Ok(n),
            Err(e) => Err(errmap(e)),
        }
    }

    /// Flushes the stream's buffered writes.
    pub fn flush(&mut self) -> (r: Result<(), i32>)
        ensures
            final(self).attributes() == old(self).attributes(),
            final(self).stream().content() == old(self).stream().content(),
            final(self).stream().flush_count() == old(self).stream().flush_count() + 1,
            old(self).stream().reliable() ==> final(self).stream().reliable() && r is Ok,
            r is Err ==> exists|k: FailureKind| r->Err_0 == spec_errmap(k),
    {
        match self.0.file.flush() {
            Ok(()) => Ok(()),
            Err(e) => Err(errmap(e)),
        }
    }

    /// Accepts every attribute change without applying it and answers with
    /// the unchanged attributes.
    pub fn setattr(&self) -> (r: Result<(Timestamp, FileAttributes), i32>)
        ensures
            r == Ok::<(Timestamp, FileAttributes), i32>((spec_ttl(), self.attributes())),
    {
        Ok(self.0.getattr())
    }
}

} // verus!
