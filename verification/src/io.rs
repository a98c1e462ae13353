//! Writing whole buffers and lists of buffers through calls that may write
//! only part of what they are given.
use vstd::prelude::*;

use vstd::slice::slice_subrange;

use crate::errno::{Errno, EINTR, ENOSPC};

verus! {

/// File descriptor for the standard input stream.
pub const STDIN_FILENO: i32 = 0;

/// File descriptor for the standard output stream.
pub const STDOUT_FILENO: i32 = 1;

/// File descriptor for the standard error stream.
pub const STDERR_FILENO: i32 = 2;

/// Error used when a non-empty write reports zero bytes written.
///
/// Following GNU coreutils, zero progress is treated as `ENOSPC`: some
/// device drivers returned zero when writing beyond the end of a device
/// instead of reporting an error, and treating it as an error keeps write
/// loops from retrying forever when the descriptor makes no progress.
pub const ZERO_PROGRESS_WRITE_ERRNO: u16 = ENOSPC;

/// What a write loop does next.
#[derive(PartialEq, Eq, Debug)]
pub enum WriteStep {
    /// Issue the next write, starting at this position: a byte offset into
    /// the buffer for [`write_all`], an index into the list of vectors for
    /// [`write_vectored`].
    Write(usize),
    /// The loop is over, with this result.
    Done(Result<(), Errno>),
}

/// The loop's next step once the first `position` units are written: write
/// from `position` while it is short of `len`, else finish successfully.
pub open spec fn continue_from(len: int, position: int) -> WriteStep {
    if position < len {
        WriteStep::Write(position as usize)
    } else {
        WriteStep::Done(Ok(()))
    }
}

/// The step after a write issued at `position` had the outcome `outcome`:
/// `EINTR` repeats the write; another error ends the loop with it; zero
/// bytes written ends it with [`ZERO_PROGRESS_WRITE_ERRNO`]; and `n > 0`
/// bytes written moves on by `n`.
pub open spec fn after_write(len: int, position: int, outcome: Result<usize, Errno>) -> WriteStep {
    match outcome {
        Err(e) => if e.0 == EINTR {
            continue_from(len, position)
        } else {
            WriteStep::Done(Err(e))
        },
        Ok(n) => if n == 0 {
            WriteStep::Done(Err(Errno(ZERO_PROGRESS_WRITE_ERRNO)))
        } else {
            continue_from(len, position + n)
        },
    }
}

/// The first step of writing a whole buffer of `len` bytes. A write is
/// issued only if the buffer holds data.
pub fn write_all_begin(len: usize) -> (step: WriteStep)
    ensures
        step == continue_from(len as int, 0),
{
    if 0 < len {
        WriteStep::Write(0)
    } else {
        WriteStep::Done(Ok(()))
    }
}

/// Writes an entire buffer of `len` bytes: given the outcome of the write
/// of the buffer from byte `offset` on, decides the next step.
///
/// Writes are issued until no data is left or an error other than `EINTR`
/// comes back; that error is the result. A write that reports zero bytes
/// ends the loop with [`ZERO_PROGRESS_WRITE_ERRNO`].
pub fn write_all(len: usize, offset: usize, outcome: Result<usize, Errno>) -> (step: WriteStep)
    ensures
        step == after_write(len as int, offset as int, outcome),
        match outcome {
            Err(e) => e.0 != 4 ==> step == WriteStep::Done(Err(e)),
            Ok(_) => true,
        },
{
    match outcome {
        Err(errno) => if errno.0 == EINTR {
            if offset < len {
                WriteStep::Write(offset)
            } else {
                WriteStep::Done(Ok(()))
            }
        } else {
            WriteStep::Done(Err(errno))
        },
        Ok(written) => if written == 0 {
            WriteStep::Done(Err(Errno(ZERO_PROGRESS_WRITE_ERRNO)))
        } else if offset < len && written < len - offset {
            WriteStep::Write(offset + written)
        } else {
            WriteStep::Done(Ok(()))
        },
    }
}

/// One buffer of a vectored write: the bytes still to be written from it.
#[derive(Clone, Copy)]
pub struct WriteVector<'a> {
    data: &'a [u8],
}

impl<'a> View for WriteVector<'a> {
    type V = Seq<u8>;

    closed spec fn view(&self) -> Seq<u8> {
        self.data@
    }
}

impl<'a> WriteVector<'a> {
    /// A vector that writes all of `slice`.
    pub fn from_slice(slice: &'a [u8]) -> (vector: WriteVector<'a>)
        ensures
            vector@ == slice@,
    {
        WriteVector { data: slice }
    }

    /// The bytes this vector still has to write.
    pub fn as_slice(&self) -> (slice: &'a [u8])
        ensures
            slice@ == self@,
    {
        self.data
    }

    /// The number of bytes this vector still has to write.
    pub fn len(&self) -> (len: usize)
        ensures
            len == self@.len(),
    {
        self.data.len()
    }

    /// The vector without its first `n` bytes.
    fn advance(self, n: usize) -> (rest: WriteVector<'a>)
        requires
            n <= self@.len(),
        ensures
            rest@ == self@.skip(n as int),
    {
        WriteVector { data: slice_subrange(self.data, n, self.data.len()) }
    }
}

/// The contents of each vector of `vectors`.
pub open spec fn views<'a>(vectors: Seq<WriteVector<'a>>) -> Seq<Seq<u8>> {
    vectors.map_values(|v: WriteVector<'a>| v@)
}

/// All the bytes of `buffers`, one buffer after another.
pub open spec fn flatten(buffers: Seq<Seq<u8>>) -> Seq<u8>
    decreases buffers.len(),
{
    if buffers.len() == 0 {
        Seq::empty()
    } else {
        buffers[0] + flatten(buffers.drop_first())
    }
}

/// The buffers still to be written after a vectored write of `buffers`
/// wrote `written` bytes: the buffers written in full are dropped (a
/// buffer is dropped as soon as the count reaches its end, so that a
/// following empty buffer stays), and a buffer written in part loses the
/// part written.
pub open spec fn advanced(buffers: Seq<Seq<u8>>, written: int) -> Seq<Seq<u8>>
    decreases buffers.len(),
{
    if buffers.len() == 0 {
        buffers
    } else if buffers[0].len() < written {
        advanced(buffers.drop_first(), written - buffers[0].len())
    } else if buffers[0].len() == written {
        buffers.drop_first()
    } else {
        seq![buffers[0].skip(written)] + buffers.drop_first()
    }
}

/// The first step of writing all of `vectors`.
pub fn write_vectored_begin(vectors: &Vec<WriteVector>) -> (step: WriteStep)
    ensures
        step == continue_from(vectors@.len() as int, 0),
{
    if 0 < vectors.len() {
        WriteStep::Write(0)
    } else {
        WriteStep::Done(Ok(()))
    }
}

/// Writes all vectors: given the outcome of the vectored write of
/// `vectors[offset..]`, updates the vectors and decides the next step.
///
/// `EINTR` repeats the write; another error ends the loop with it; a write
/// of zero bytes ends it with [`ZERO_PROGRESS_WRITE_ERRNO`]. After `n > 0`
/// bytes, the vectors written in full are skipped and the one written in
/// part is shortened (see [`advanced`]). A vector is skipped as soon as the
/// count reaches its end, so a trailing empty vector leads to a write of
/// zero bytes, and to [`ZERO_PROGRESS_WRITE_ERRNO`].
pub fn write_vectored<'a>(
    vectors: &mut Vec<WriteVector<'a>>,
    offset: usize,
    outcome: Result<usize, Errno>,
) -> (step: WriteStep)
    requires
        offset <= old(vectors)@.len(),
    ensures
        match outcome {
            Err(e) => final(vectors)@ == old(vectors)@ && step == after_write(
                old(vectors)@.len() as int,
                offset as int,
                outcome,
            ) && (e.0 != 4 ==> step == WriteStep::Done(Err(e))),
            Ok(n) => if n == 0 {
                final(vectors)@ == old(vectors)@ && step == after_write(
                    old(vectors)@.len() as int,
                    offset as int,
                    outcome,
                )
            } else {
                let rest = advanced(views(old(vectors)@).skip(offset as int), n as int);
                let position = old(vectors)@.len() - rest.len();
                &&& offset <= position <= old(vectors)@.len()
                &&& views(final(vectors)@) == views(old(vectors)@).take(position) + rest
                &&& step == continue_from(old(vectors)@.len() as int, position)
            },
        },
{
    let written = match outcome {
        Err(errno) => {
            if errno.0 == EINTR {
                return if offset < vectors.len() {
                    WriteStep::Write(offset)
                } else {
                    WriteStep::Done(Ok(()))
                };
            } else {
                return WriteStep::Done(Err(errno));
            }
        },
        Ok(n) => n,
    };
    if written == 0 {
        return WriteStep::Done(Err(Errno(ZERO_PROGRESS_WRITE_ERRNO)));
    }
    let ghost original = views(vectors@);
    let ghost rest = advanced(original.skip(offset as int), written as int);
    let len = vectors.len();
    let mut remaining: usize = written;
    let mut index: usize = offset;
    while index < len
        invariant
            len == vectors@.len(),
            offset <= index <= len,
            0 < remaining,
            0 < written,
            outcome == Ok::<usize, Errno>(written),
            vectors@ == old(vectors)@,
            rest == advanced(original.skip(offset as int), written as int),
            original == views(vectors@),
            rest == advanced(original.skip(index as int), remaining as int),
        decreases len - index,
    {
        let item = vectors[index];
        assert(original.skip(index as int)[0] == item@);
        assert(original.skip(index as int).drop_first() =~= original.skip(index + 1));
        if item.len() < remaining {
            remaining = remaining - item.len();
            index = index + 1;
        } else if item.len() == remaining {
            assert(original =~= original.take(index + 1) + rest);
            return if index + 1 < len {
                WriteStep::Write(index + 1)
            } else {
                WriteStep::Done(Ok(()))
            };
        } else {
            vectors.set(index, item.advance(remaining));
            assert(views(vectors@) =~= original.take(index as int) + rest);
            return WriteStep::Write(index);
        }
    }
    assert(original.skip(len as int) =~= Seq::<Seq<u8>>::empty());
    assert(original.take(len as int) =~= original);
    WriteStep::Done(Ok(()))
}

/// The step a write loop reaches from `step` when its writes have the
/// outcomes `outcomes`, one after another (outcomes left over once the loop
/// is done are not used).
pub open spec fn run_writes(len: int, step: WriteStep, outcomes: Seq<Result<usize, Errno>>) -> WriteStep
    decreases outcomes.len(),
{
    match step {
        WriteStep::Write(position) => if outcomes.len() == 0 {
            step
        } else {
            run_writes(len, after_write(len, position as int, outcomes[0]), outcomes.drop_first())
        },
        WriteStep::Done(_) => step,
    }
}

/// The number of bytes that the writes with the outcomes `outcomes` report
/// as written.
pub open spec fn bytes_accepted(outcomes: Seq<Result<usize, Errno>>) -> int
    decreases outcomes.len(),
{
    if outcomes.len() == 0 {
        0
    } else {
        (match outcomes[0] {
            Ok(n) => n as int,
            Err(_) => 0,
        }) + bytes_accepted(outcomes.drop_first())
    }
}

/// A write that fails with an error other than `EINTR` (number 4) ends the
/// loop at once with exactly that error, wherever the loop stands.
pub proof fn lemma_write_error_ends_loop(len: int, position: int, error: Errno)
    requires
        error.0 != 4,
    ensures
        after_write(len, position, Err(error)) == WriteStep::Done(Err(error)),
{
}

/// An interrupted write (error number 4) is issued again at the same
/// position; a write that reports zero bytes ends the loop with `ENOSPC`
/// (number 28).
pub proof fn lemma_interrupted_or_stalled_write(len: int, position: int)
    requires
        0 <= position < len <= usize::MAX,
    ensures
        after_write(len, position, Err(Errno(4))) == WriteStep::Write(position as usize),
        after_write(len, position, Ok(0)) == WriteStep::Done(Err(Errno(28))),
{
}

/// A write that reports `n > 0` bytes moves the loop on by exactly `n`:
/// either to the next write, strictly further on and still short of the
/// end, or to success once the end is reached.
pub proof fn lemma_write_progress(len: int, position: int, n: usize)
    requires
        0 < n,
        0 <= position,
        len <= usize::MAX,
    ensures
        after_write(len, position, Ok(n)) == continue_from(len, position + n),
        after_write(len, position, Ok(n)) matches WriteStep::Write(next) ==> position < next < len
            && next == position + n,
{
}

/// Whatever the outcomes of its writes, a loop that writes a buffer of
/// `len` bytes from `position` succeeds only once writes have reported all
/// `len - position` remaining bytes as written, and never ends with
/// `EINTR`: an interrupted write is repeated, and any other error ends the
/// loop with that error.
pub proof fn lemma_write_all_outcome(len: int, position: int, outcomes: Seq<Result<usize, Errno>>)
    requires
        0 <= position,
        len <= usize::MAX,
    ensures
        run_writes(len, continue_from(len, position), outcomes) == WriteStep::Done(Ok(()))
            ==> position + bytes_accepted(outcomes) >= len,
        run_writes(len, continue_from(len, position), outcomes) matches WriteStep::Done(Err(e))
            ==> e.0 != EINTR,
    decreases outcomes.len(),
{
    lemma_bytes_accepted_nonnegative(outcomes);
    if position < len && outcomes.len() > 0 {
        let rest = outcomes.drop_first();
        lemma_bytes_accepted_nonnegative(rest);
        assert(continue_from(len, position) == WriteStep::Write(position as usize));
        assert((position as usize) as int == position);
        assert(run_writes(len, continue_from(len, position), outcomes) == run_writes(
            len,
            after_write(len, position, outcomes[0]),
            rest,
        ));
        match outcomes[0] {
            Err(e) => {
                if e.0 == EINTR {
                    lemma_write_all_outcome(len, position, rest);
                }
            },
            Ok(n) => {
                if n != 0 {
                    lemma_write_all_outcome(len, position + n, rest);
                }
            },
        }
    }
}

/// No outcome reports a negative number of bytes.
proof fn lemma_bytes_accepted_nonnegative(outcomes: Seq<Result<usize, Errno>>)
    ensures
        bytes_accepted(outcomes) >= 0,
    decreases outcomes.len(),
{
    if outcomes.len() > 0 {
        lemma_bytes_accepted_nonnegative(outcomes.drop_first());
    }
}

/// After a vectored write of `written` bytes, what is left to write of the
/// buffers is exactly what was left before, without its first `written`
/// bytes.
pub proof fn lemma_advanced_drops_written(buffers: Seq<Seq<u8>>, written: int)
    requires
        0 <= written <= flatten(buffers).len(),
    ensures
        flatten(advanced(buffers, written)) == flatten(buffers).skip(written),
    decreases buffers.len(),
{
    if buffers.len() == 0 {
        assert(flatten(buffers).skip(written) =~= Seq::<u8>::empty());
    } else {
        let first = buffers[0];
        let rest = buffers.drop_first();
        if first.len() < written {
            lemma_advanced_drops_written(rest, written - first.len());
            assert(flatten(buffers).skip(written) =~= flatten(rest).skip(written - first.len()));
        } else if first.len() == written {
            assert(flatten(buffers).skip(written) =~= flatten(rest));
        } else {
            let shortened = seq![first.skip(written)] + rest;
            assert(shortened[0] == first.skip(written));
            assert(shortened.drop_first() =~= rest);
            assert(flatten(buffers).skip(written) =~= first.skip(written) + flatten(rest));
        }
    }
}

/// Whether `rest` is what is left of `buffer` once a prefix of it is
/// written: a suffix of `buffer`.
pub open spec fn is_suffix(rest: Seq<u8>, buffer: Seq<u8>) -> bool {
    &&& rest.len() <= buffer.len()
    &&& rest == buffer.skip(buffer.len() - rest.len())
}

/// What a vectored write leaves of the buffers: as many buffers or fewer;
/// each one left is a suffix of the buffer at the same place counted from
/// the end, and all but the first of them are untouched.
pub proof fn lemma_advanced_suffixes(buffers: Seq<Seq<u8>>, written: int)
    requires
        0 < written,
    ensures
        ({
            let rest = advanced(buffers, written);
            let k = buffers.len() - rest.len();
            &&& rest.len() <= buffers.len()
            &&& forall|j: int| 0 <= j < rest.len() ==> is_suffix(#[trigger] rest[j], buffers[k + j])
            &&& forall|j: int| 0 < j < rest.len() ==> #[trigger] rest[j] == buffers[k + j]
        }),
    decreases buffers.len(),
{
    if buffers.len() > 0 {
        let first = buffers[0];
        let tail = buffers.drop_first();
        if first.len() < written {
            lemma_advanced_suffixes(tail, written - first.len());
        } else if first.len() == written {
            assert forall|j: int| 0 <= j < tail.len() implies is_suffix(
                #[trigger] tail[j],
                buffers[1 + j],
            ) by {
                assert(tail[j].skip(0) =~= tail[j]);
            }
        } else {
            let rest = seq![first.skip(written)] + tail;
            assert(rest[0] == first.skip(written));
            assert forall|j: int| 0 <= j < rest.len() implies is_suffix(
                #[trigger] rest[j],
                buffers[j],
            ) by {
                if j > 0 {
                    assert(rest[j] == tail[j - 1]);
                    assert(buffers[j].skip(0) =~= buffers[j]);
                }
            }
            assert forall|j: int| 0 < j < rest.len() implies #[trigger] rest[j] == buffers[j] by {
                assert(rest[j] == tail[j - 1]);
            }
        }
    }
}

/// After each vectored write, every vector is a suffix of the vector it
/// started as (it never points outside that vector's bytes), and every
/// vector but the one at the new position is left unchanged, the vectors
/// already sent in full among them.
pub proof fn lemma_vectors_stay_suffixes(original: Seq<Seq<u8>>, offset: int, written: int)
    requires
        0 <= offset <= original.len(),
        0 < written,
    ensures
        ({
            let rest = advanced(original.skip(offset), written);
            let position = original.len() - rest.len();
            let after = original.take(position) + rest;
            &&& offset <= position <= original.len()
            &&& after.len() == original.len()
            &&& forall|i: int| 0 <= i < after.len() ==> is_suffix(#[trigger] after[i], original[i])
            &&& forall|i: int| 0 <= i < after.len() && i != position ==> #[trigger] after[i]
                == original[i]
        }),
{
    let remaining = original.skip(offset);
    lemma_advanced_suffixes(remaining, written);
    let rest = advanced(remaining, written);
    let position = original.len() - rest.len();
    let after = original.take(position) + rest;
    assert forall|i: int| 0 <= i < after.len() implies is_suffix(
        #[trigger] after[i],
        original[i],
    ) by {
        if i < position {
            assert(after[i] == original[i]);
            assert(original[i].skip(0) =~= original[i]);
        } else {
            assert(after[i] == rest[i - position]);
            assert(remaining[(position - offset) + (i - position)] == original[i]);
        }
    }
    assert forall|i: int| 0 <= i < after.len() && i != position implies #[trigger] after[i]
        == original[i] by {
        if i > position {
            assert(after[i] == rest[i - position]);
            assert(remaining[(position - offset) + (i - position)] == original[i]);
        }
    }
}

} // verus!
