//! The transfer: every byte of an opened source goes to an opened sink, in
//! order, one buffer at a time, and the progress indicator moves with it.

use crate::error::CopyError;
use crate::progress::{advance, bar_length, bar_position, progress_for, saturating_sum};
use crate::stream::{SinkStream, SourceStream};
use indicatif::ProgressBar;
use vstd::prelude::*;
use vstd::slice::slice_subrange;

verus! {

/// The size of the buffer: no read brings more bytes than this.
pub const DEFAULT_BUF_SIZE: usize = 8 * 1024;

/// What holds of the two streams after a transfer, however it ended: the
/// sink accepted a front part of what was read from the source, the same
/// bytes in the same order, and at most one buffer's worth was read and
/// not written.
pub open spec fn moved_in_order<R, W>(
    source_before: &SourceStream<R>,
    source: &SourceStream<R>,
    sink_before: &SinkStream<W>,
    sink: &SinkStream<W>,
) -> bool {
    &&& source.follows(source_before)
    &&& sink.follows(sink_before)
    &&& sink.written_since(sink_before).is_prefix_of(source.read_since(source_before))
    &&& source.read_since(source_before).len() - sink.written_since(sink_before).len()
        <= DEFAULT_BUF_SIZE
}

/// What holds of the two streams after a transfer that succeeded: the
/// sink accepted exactly the `total` bytes that were read from the source.
/// No read and no write failed. The last read, and no other, found the
/// source at its end; each read before it brought a chunk, which was
/// written at once.
pub open spec fn moved_all<R, W>(
    source_before: &SourceStream<R>,
    source: &SourceStream<R>,
    sink_before: &SinkStream<W>,
    sink: &SinkStream<W>,
    total: u64,
) -> bool {
    &&& source.ended()
    &&& source.failure() is None
    &&& sink.written_since(sink_before) == source.read_since(source_before)
    &&& source.read_since(source_before).len() == total
    &&& source.failed_reads_since(source_before) == 0
    &&& sink.failed_writes_since(sink_before) == 0
    &&& source.end_reads_since(source_before) == 1
    &&& source.reads_since(source_before) == sink.writes_since(sink_before) + 1
}

/// What holds of the two streams after a transfer that failed with
/// `error`. No read found the source at its end, and one of three things
/// ended the transfer, at once and with nothing tried again:
/// - a read failed with `error`, the only failure; all that was read
///   before is written;
/// - a write failed with `error`, the only failure; the chunk it was given
///   is read but not written, and no read followed;
/// - nothing failed, but the count of bytes would have passed the largest
///   `u64`; the chunk that would have done so is read but not written.
pub open spec fn stopped_by<R, W>(
    source_before: &SourceStream<R>,
    source: &SourceStream<R>,
    sink_before: &SinkStream<W>,
    sink: &SinkStream<W>,
    error: std::io::Error,
) -> bool {
    let read = source.read_since(source_before);
    let written = sink.written_since(sink_before);
    let reads = source.reads_since(source_before);
    let writes = sink.writes_since(sink_before);
    let failed_reads = source.failed_reads_since(source_before);
    let failed_writes = sink.failed_writes_since(sink_before);
    &&& source.end_reads_since(source_before) == 0
    &&& {
        ||| {
            &&& source.failure() == Some(error)
            &&& failed_reads == 1
            &&& failed_writes == 0
            &&& reads == writes + 1
            &&& written == read
        }
        ||| {
            &&& source.failure() is None
            &&& sink.failure() == Some(error)
            &&& failed_reads == 0
            &&& failed_writes == 1
            &&& reads == writes
            &&& written.len() < read.len()
        }
        ||| {
            &&& source.failure() is None
            &&& failed_reads == 0
            &&& failed_writes == 0
            &&& reads == writes + 1
            &&& read.len() > u64::MAX
        }
    }
}

/// Moves the bytes of `reader` to `writer` until the reader returns no
/// more, and returns how many there were. Each chunk is written whole
/// before the next is read, and `progress` is advanced by the length of
/// each chunk once it is written. The first read or write that fails ends
/// the transfer with its error; what was written before stays written. A
/// transfer whose count would pass the largest `u64` fails as well.
pub fn io_copy_with_progress<R: std::io::Read, W: std::io::Write>(
    reader: &mut SourceStream<R>,
    writer: &mut SinkStream<W>,
    progress: &mut ProgressBar,
) -> (r: Result<u64, std::io::Error>)
    ensures
        moved_in_order(old(reader), final(reader), old(writer), final(writer)),
        match r {
            Ok(total) => moved_all(old(reader), final(reader), old(writer), final(writer), total),
            Err(error) => stopped_by(old(reader), final(reader), old(writer), final(writer), error),
        },
        final(writer).written_since(old(writer)).len() <= u64::MAX,
        bar_position(*final(progress)) == saturating_sum(
            bar_position(*old(progress)) as int,
            final(writer).written_since(old(writer)).len() as int,
        ),
        bar_length(*final(progress)) == bar_length(*old(progress)),
{
    let mut buf: Vec<u8> = vec![0u8; DEFAULT_BUF_SIZE];
    let mut written: u64 = 0;
    let ghost mut moved: Seq<u8> = Seq::empty();
    let ghost read_before = reader.consumed();
    let ghost written_before = writer.accepted();
    let ghost mut rounds: nat = 0;
    proof {
        assert(read_before + moved =~= read_before);
        assert(written_before + moved =~= written_before);
    }
    loop
        invariant
            read_before == old(reader).consumed(),
            written_before == old(writer).accepted(),
            reader.size() == old(reader).size(),
            reader.consumed() == read_before + moved,
            writer.accepted() == written_before + moved,
            written == moved.len(),
            reader.reads() == old(reader).reads() + rounds,
            reader.failed_reads() == old(reader).failed_reads(),
            reader.end_reads() == old(reader).end_reads(),
            writer.writes() == old(writer).writes() + rounds,
            writer.failed_writes() == old(writer).failed_writes(),
            buf@.len() == DEFAULT_BUF_SIZE,
            bar_position(*progress) == saturating_sum(
                bar_position(*old(progress)) as int,
                moved.len() as int,
            ),
            bar_length(*progress) == bar_length(*old(progress)),
        decreases u64::MAX - written,
    {
        let read = reader.read(buf.as_mut_slice());
        proof {
            let chunk = reader.consumed().skip((read_before.len() + moved.len()) as int);
            assert((written_before + moved).skip(written_before.len() as int) =~= moved);
            assert(reader.consumed().skip(read_before.len() as int) =~= moved + chunk);
            assert(chunk.len() <= DEFAULT_BUF_SIZE);
            assert(written_before.is_prefix_of(written_before + moved));
            assert(read_before.is_prefix_of(reader.consumed()));
            assert(moved.is_prefix_of(moved + chunk));
        }
        let len = match read {
            Ok(len) => len,
            Err(e) => {
                return Err(e);
            },
        };
        if len == 0 {
            return Ok(written);
        }
        let total = match written.checked_add(len as u64) {
            Some(total) => total,
            None => {
                return Err(std::io::Error::from(std::io::ErrorKind::FileTooLarge));
            },
        };
        let chunk = slice_subrange(buf.as_slice(), 0, len);
        match writer.write_all(chunk) {
            Ok(_) => {},
            Err(e) => {
                return Err(e);
            },
        }
        proof {
            assert(chunk@ =~= buf@.take(len as int));
            assert(read_before + (moved + chunk@) =~= read_before + moved + chunk@);
            assert(written_before + (moved + chunk@) =~= written_before + moved + chunk@);
            moved = moved + chunk@;
            rounds = rounds + 1;
        }
        written = total;
        advance(progress, len as u64);
    }
}

/// Between two streams that were just opened, a transfer that succeeds
/// leaves in the sink exactly the bytes that the source gave, as many as
/// it reports: whether there were none, one buffer's worth, or more.
pub proof fn lemma_round_trip<R, W>(
    source_before: &SourceStream<R>,
    source: &SourceStream<R>,
    sink_before: &SinkStream<W>,
    sink: &SinkStream<W>,
    total: u64,
)
    requires
        source_before.consumed() == Seq::<u8>::empty(),
        sink_before.accepted() == Seq::<u8>::empty(),
        moved_all(source_before, source, sink_before, sink, total),
    ensures
        sink.accepted() == source.consumed(),
        sink.accepted().len() == total,
{
    assert(source.consumed().skip(0) =~= source.consumed());
    assert(sink.accepted().skip(0) =~= sink.accepted());
}

/// Over one transfer that succeeds, the steps by which a bar that started
/// at zero was advanced add up to the number of bytes written, which is
/// the total reported. Where the source was opened with a size and gave
/// exactly that many bytes, the bar ends at that size.
pub proof fn lemma_progress_counts_bytes<R, W>(
    source_before: &SourceStream<R>,
    source: &SourceStream<R>,
    sink_before: &SinkStream<W>,
    sink: &SinkStream<W>,
    total: u64,
    bar_before: ProgressBar,
    bar: ProgressBar,
)
    requires
        moved_all(source_before, source, sink_before, sink, total),
        bar_position(bar_before) == 0,
        bar_position(bar) == saturating_sum(
            bar_position(bar_before) as int,
            sink.written_since(sink_before).len() as int,
        ),
        source.size() matches Some(size) ==> size == source.read_since(source_before).len(),
    ensures
        bar_position(bar) == sink.written_since(sink_before).len(),
        bar_position(bar) == total,
        source.size() matches Some(size) ==> bar_position(bar) == size,
{
}

/// Runs one transfer between two opened streams, under an indicator chosen
/// by the source: a bar of the source's size where it is known, a spinner
/// where it is not. Returns the number of bytes moved.
pub fn transfer<R: std::io::Read, W: std::io::Write>(
    source: &mut SourceStream<R>,
    sink: &mut SinkStream<W>,
) -> (r: Result<u64, CopyError>)
    ensures
        moved_in_order(old(source), final(source), old(sink), final(sink)),
        match r {
            Ok(total) => moved_all(old(source), final(source), old(sink), final(sink), total),
            Err(CopyError::Io(error)) => stopped_by(
                old(source),
                final(source),
                old(sink),
                final(sink),
                error,
            ),
            Err(CopyError::Http(_)) => false,
        },
{
    let mut progress = progress_for(source.stream_size());
    match io_copy_with_progress(source, sink, &mut progress) {
        Ok(total) => Ok(total),
        Err(e) => Err(CopyError::from(e)),
    }
}

} // verus!
