use vstd::prelude::*;
use crate::errno::FailureKind;

verus! {

/// The bytes that a read of up to `size` bytes at offset `pos` gets from
/// `content`: those from `pos` on, at most `size` of them, and none when
/// `pos` lies at or past the end.
pub open spec fn available(content: Seq<u8>, pos: nat, size: nat) -> Seq<u8> {
    if pos >= content.len() {
        Seq::empty()
    } else if pos + size <= content.len() {
        content.subrange(pos as int, (pos + size) as int)
    } else {
        content.subrange(pos as int, content.len() as int)
    }
}

/// `content` after `bytes` have been written at offset `pos`: the written
/// range holds `bytes`, the rest is kept, and a gap between the old end
/// and `pos` reads as zeros. Writing no bytes changes nothing.
pub open spec fn overwrite(content: Seq<u8>, pos: nat, bytes: Seq<u8>) -> Seq<u8> {
    let end = if bytes.len() > 0 && pos + bytes.len() > content.len() {
        pos + bytes.len()
    } else {
        content.len()
    };
    Seq::new(
        end as nat,
        |i: int|
            if pos <= i < pos + bytes.len() {
                bytes[i - pos]
            } else if i < content.len() {
                content[i]
            } else {
                0u8
            },
    )
}

/// A read of `size` bytes at `offset`, inside the content, gives the bytes
/// from `offset` on, as many as `size` and the remaining length allow.
pub proof fn lemma_read_window(content: Seq<u8>, offset: nat, size: nat)
    requires
        offset <= content.len(),
    ensures
        available(content, offset, size).len() == if size <= content.len() - offset {
            size
        } else {
            (content.len() - offset) as nat
        },
        forall|i: int|
            0 <= i < available(content, offset, size).len() ==> #[trigger] available(
                content,
                offset,
                size,
            )[i] == content[offset + i],
{
}

/// Reading right after a write, at the same offset, gives back the bytes
/// that the write took, and all of `data` when it took all of it.
pub proof fn lemma_write_then_read(content: Seq<u8>, offset: nat, data: Seq<u8>, taken: nat)
    requires
        taken <= data.len(),
    ensures
        available(overwrite(content, offset, data.take(taken as int)), offset, data.len()).take(
            taken as int,
        ) == data.take(taken as int),
        taken == data.len() ==> available(
            overwrite(content, offset, data.take(taken as int)),
            offset,
            data.len(),
        ) == data,
{
    let after = overwrite(content, offset, data.take(taken as int));
    let got = available(after, offset, data.len());
    assert(got.take(taken as int) =~= data.take(taken as int));
    if taken == data.len() {
        assert(got =~= data);
    }
}

/// A byte stream with absolute seeking and reading.
///
/// Its state is modelled by its content, its current position, and a bound
/// on the interruptions that it may still report. A stream may be
/// interrupted any number of times, but not forever: that bound is what
/// lets the retrying helpers below terminate. A reliable stream, such as
/// one held in memory, never fails and stays reliable.
pub trait SeekRead: Sized {
    /// The bytes the stream holds.
    spec fn content(&self) -> Seq<u8>;

    /// The offset of the next read or write.
    spec fn position(&self) -> nat;

    /// How many more "interrupted" failures the stream may report; each
    /// one lowers it.
    spec fn interruptions_left(&self) -> nat;

    /// Whether every operation on the stream succeeds.
    spec fn reliable(&self) -> bool;

    /// Moves to the absolute offset `pos`.
    fn seek_to(&mut self, pos: u64) -> (r: Result<u64, FailureKind>)
        ensures
            final(self).content() == old(self).content(),
            r is Ok ==> r->Ok_0 == pos && final(self).position() == pos,
            old(self).reliable() ==> r is Ok && final(self).reliable(),
    ;

    /// Moves to the end of the stream and returns its length.
    fn seek_end(&mut self) -> (r: Result<u64, FailureKind>)
        ensures
            final(self).content() == old(self).content(),
            r is Ok ==> r->Ok_0 == old(self).content().len() && final(self).position()
                == old(self).content().len(),
            old(self).reliable() ==> r is Ok && final(self).reliable(),
    ;

    /// Reads at most `max` bytes at the current position. An empty result
    /// means that `max` is zero or that the position is at or past the end.
    fn read_some(&mut self, max: usize) -> (r: Result<Vec<u8>, FailureKind>)
        ensures
            final(self).content() == old(self).content(),
            r is Ok ==> {
                let got = r->Ok_0@;
                &&& got.len() <= max
                &&& got == available(old(self).content(), old(self).position(), got.len())
                &&& final(self).position() == old(self).position() + got.len()
                &&& got.len() == 0 ==> available(
                    old(self).content(),
                    old(self).position(),
                    max as nat,
                ).len() == 0
            },
            r == Err::<Vec<u8>, FailureKind>(FailureKind::Interrupted) ==> final(self).position()
                == old(self).position() && final(self).interruptions_left() < old(
                self,
            ).interruptions_left(),
            old(self).reliable() ==> r is Ok && final(self).reliable(),
    ;
}

/// A seekable stream that can also be written and flushed.
pub trait SeekWrite: SeekRead {
    /// How many times the stream has been flushed.
    spec fn flush_count(&self) -> nat;

    /// Writes a prefix of `data` at the current position and returns its
    /// length; zero means that the stream takes no more bytes. A reliable
    /// stream takes at least one byte while the position is inside it.
    fn write_some(&mut self, data: &[u8]) -> (r: Result<usize, FailureKind>)
        ensures
            r is Ok ==> {
                let n = r->Ok_0;
                &&& n <= data@.len()
                &&& final(self).content() == overwrite(
                    old(self).content(),
                    old(self).position(),
                    data@.take(n as int),
                )
                &&& final(self).position() == old(self).position() + n
            },
            r == Err::<usize, FailureKind>(FailureKind::Interrupted) ==> final(self).content()
                == old(self).content() && final(self).position() == old(self).position()
                && final(self).interruptions_left() < old(self).interruptions_left(),
            old(self).reliable() ==> r is Ok && final(self).reliable(),
            old(self).reliable() && data@.len() > 0 && old(self).position() < old(
                self,
            ).content().len() ==> r->Ok_0 > 0,
    ;

    /// Pushes buffered writes to the underlying storage.
    fn flush(&mut self) -> (r: Result<(), FailureKind>)
        ensures
            final(self).content() == old(self).content(),
            final(self).flush_count() == old(self).flush_count() + 1,
            old(self).reliable() ==> r is Ok && final(self).reliable(),
    ;
}

/// Reads from the current position until `size` bytes are in hand or the
/// stream reports that no more are available, retrying interrupted reads.
pub fn read_up_to<S: SeekRead>(stream: &mut S, size: usize) -> (r: Result<Vec<u8>, FailureKind>)
    ensures
        final(stream).content() == old(stream).content(),
        r is Ok ==> r->Ok_0@ == available(old(stream).content(), old(stream).position(), size as nat)
            && final(stream).position() == old(stream).position() + r->Ok_0@.len(),
        r is Err ==> r->Err_0 != FailureKind::Interrupted,
        size == 0 ==> r is Ok && r->Ok_0@.len() == 0 && *final(stream) == *old(stream),
        old(stream).reliable() ==> r is Ok && final(stream).reliable(),
{
    let ghost content = stream.content();
    let ghost start = stream.position();
    let ghost rel = stream.reliable();
    let mut buf: Vec<u8> = Vec::new();
    while buf.len() < size
        invariant
            content == old(stream).content(),
            start == old(stream).position(),
            stream.content() == content,
            rel == old(stream).reliable(),
            rel ==> stream.reliable(),
            size == 0 ==> *stream == *old(stream),
            buf.len() <= size,
            buf@ == available(content, start, buf.len() as nat),
            stream.position() == start + buf.len(),
        decreases size - buf.len(), stream.interruptions_left(),
    {
        let want = size - buf.len();
        match stream.read_some(want) {
            Ok(mut got) => {
                if got.len() == 0 {
                    proof {
                        assert(available(content, start, size as nat) =~= buf@);
                    }
                    return Ok(buf);
                }
                buf.append(&mut got);
                proof {
                    assert(buf@ =~= available(content, start, buf.len() as nat));
                }
            },
            Err(FailureKind::Interrupted) => {},
            Err(e) => {
                return Err(e);
            },
        }
    }
    Ok(buf)
}

/// Writes `data` from the current position until all of it is taken or the
/// stream takes no more, retrying interrupted writes; returns how many
/// bytes were taken.
pub fn write_up_to<S: SeekWrite>(stream: &mut S, data: &[u8]) -> (r: Result<usize, FailureKind>)
    ensures
        r is Ok ==> r->Ok_0 <= data@.len() && final(stream).content() == overwrite(
            old(stream).content(),
            old(stream).position(),
            data@.take(r->Ok_0 as int),
        ) && final(stream).position() == old(stream).position() + r->Ok_0,
        r is Err ==> r->Err_0 != FailureKind::Interrupted,
        data@.len() == 0 ==> r == Ok::<usize, FailureKind>(0) && *final(stream) == *old(stream),
        old(stream).reliable() ==> r is Ok && final(stream).reliable(),
        old(stream).reliable() && old(stream).position() + data@.len() <= old(stream).content().len()
            ==> r == Ok::<usize, FailureKind>(data@.len() as usize),
        old(stream).reliable() && r is Ok && r->Ok_0 < data@.len() ==> final(stream).position()
            >= final(stream).content().len(),
{
    let ghost content = stream.content();
    let ghost start = stream.position();
    let ghost rel = stream.reliable();
    let mut done: usize = 0;
    proof {
        assert(overwrite(content, start, data@.take(0)) =~= content);
    }
    while done < data.len()
        invariant
            content == old(stream).content(),
            start == old(stream).position(),
            rel == old(stream).reliable(),
            rel ==> stream.reliable(),
            data@.len() == 0 ==> *stream == *old(stream),
            stream.content().len() >= content.len(),
            done <= data@.len(),
            stream.content() == overwrite(content, start, data@.take(done as int)),
            stream.position() == start + done,
        decreases data@.len() - done, stream.interruptions_left(),
    {
        let rest = vstd::slice::slice_subrange(data, done, data.len());
        match stream.write_some(rest) {
            Ok(n) => {
                if n == 0 {
                    return Ok(done);
                }
                proof {
                    assert(overwrite(
                        overwrite(content, start, data@.take(done as int)),
                        (start + done) as nat,
                        rest@.take(n as int),
                    ) =~= overwrite(content, start, data@.take(done + n)));
                }
                done = done + n;
            },
            Err(FailureKind::Interrupted) => {},
            Err(e) => {
                return Err(e);
            },
        }
    }
    Ok(done)
}

} // verus!
