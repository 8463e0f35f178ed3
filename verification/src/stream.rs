//! Opened streams: a source that is read from, a sink that is written to.
//!
//! Each stream keeps a record of what has passed through it, so that a
//! transfer can say what it moved and how it ended.

use vstd::prelude::*;

verus! {

/// Calls `std::io::Read::read`, which fills a front part of the buffer and
/// returns its length, at most the buffer's.
#[verifier::external_body]
fn read_some<R: std::io::Read>(reader: &mut R, buf: &mut [u8]) -> (r: Result<usize, std::io::Error>)
    ensures
        final(buf)@.len() == old(buf)@.len(),
        r matches Ok(n) ==> n <= old(buf)@.len(),
{
    reader.read(buf)
}

/// Calls `std::io::Write::write_all`, which writes the whole slice or fails.
#[verifier::external_body]
fn write_whole<W: std::io::Write>(writer: &mut W, data: &[u8]) -> (r: Result<(), std::io::Error>) {
    writer.write_all(data)
}

/// An opened source: bytes are read from it, and it may know its length.
pub struct SourceStream<R> {
    reader: R,
    size: Option<u64>,
    consumed: Ghost<Seq<u8>>,
    ended: Ghost<bool>,
    failure: Ghost<Option<std::io::Error>>,
    reads: Ghost<nat>,
    failed_reads: Ghost<nat>,
    end_reads: Ghost<nat>,
}

impl<R> SourceStream<R> {
    /// The reader that the stream holds, as it is now.
    pub closed spec fn reader(&self) -> R {
        self.reader
    }

    /// The bytes read from the stream so far, in the order they came.
    pub closed spec fn consumed(&self) -> Seq<u8> {
        self.consumed@
    }

    /// Whether the latest read into a buffer with room returned no byte:
    /// the source's sign that it has ended.
    pub closed spec fn ended(&self) -> bool {
        self.ended@
    }

    /// The error of the latest read, if it failed.
    pub closed spec fn failure(&self) -> Option<std::io::Error> {
        self.failure@
    }

    /// How many reads were asked of the stream.
    pub closed spec fn reads(&self) -> nat {
        self.reads@
    }

    /// How many of the reads failed.
    pub closed spec fn failed_reads(&self) -> nat {
        self.failed_reads@
    }

    /// How many of the reads into a buffer with room returned no byte.
    pub closed spec fn end_reads(&self) -> nat {
        self.end_reads@
    }

    /// The length that the stream was opened with, where one is known.
    pub closed spec fn size(&self) -> Option<u64> {
        self.size
    }

    /// Whether this is `before` after some more reads.
    pub open spec fn follows(&self, before: &Self) -> bool {
        &&& before.consumed().is_prefix_of(self.consumed())
        &&& self.size() == before.size()
        &&& self.reads() >= before.reads()
        &&& self.failed_reads() >= before.failed_reads()
        &&& self.end_reads() >= before.end_reads()
    }

    /// How many reads were asked of the stream after it was as `before`.
    pub open spec fn reads_since(&self, before: &Self) -> int {
        self.reads() - before.reads()
    }

    /// How many reads failed after the stream was as `before`.
    pub open spec fn failed_reads_since(&self, before: &Self) -> int {
        self.failed_reads() - before.failed_reads()
    }

    /// How many reads into a buffer with room returned no byte after the
    /// stream was as `before`.
    pub open spec fn end_reads_since(&self, before: &Self) -> int {
        self.end_reads() - before.end_reads()
    }

    /// The bytes read from the stream after it was as `before`.
    pub open spec fn read_since(&self, before: &Self) -> Seq<u8>
        recommends
            self.follows(before),
    {
        self.consumed().skip(before.consumed().len() as int)
    }

    /// Takes a reader that was just opened, and its length where known.
    pub fn new(reader: R, size: Option<u64>) -> (r: Self)
        ensures
            r.reader() == reader,
            r.consumed() == Seq::<u8>::empty(),
            !r.ended(),
            r.failure() is None,
            r.reads() == 0,
            r.failed_reads() == 0,
            r.end_reads() == 0,
            r.size() == size,
    {
        SourceStream {
            reader,
            size,
            consumed: Ghost(Seq::empty()),
            ended: Ghost(false),
            failure: Ghost(None),
            reads: Ghost(0),
            failed_reads: Ghost(0),
            end_reads: Ghost(0),
        }
    }

    /// The total length of the stream in bytes, where it is known.
    pub fn stream_size(&self) -> (r: Option<u64>)
        ensures
            r == self.size(),
    {
        self.size
    }

    /// Gives the reader back.
    pub fn into_inner(self) -> (r: R)
        ensures
            r == self.reader(),
    {
        self.reader
    }
}

impl<R: std::io::Read> SourceStream<R> {
    /// Reads the next bytes into the front of `buf` and returns how many
    /// came. They are added to the record; a failed read adds none and
    /// leaves its error on record. Every read is counted, and so is every
    /// one that failed and every one that found the source at its end.
    pub fn read(&mut self, buf: &mut [u8]) -> (r: Result<usize, std::io::Error>)
        ensures
            final(buf)@.len() == old(buf)@.len(),
            final(self).size() == old(self).size(),
            final(self).reads() == old(self).reads() + 1,
            match r {
                Ok(n) => {
                    &&& n <= old(buf)@.len()
                    &&& final(self).consumed() == old(self).consumed() + final(buf)@.take(n as int)
                    &&& final(self).ended() == if old(buf)@.len() > 0 {
                        n == 0
                    } else {
                        old(self).ended()
                    }
                    &&& final(self).failure() is None
                    &&& final(self).failed_reads() == old(self).failed_reads()
                    &&& final(self).end_reads() == old(self).end_reads() + if old(buf)@.len() > 0
                        && n == 0 {
                        1nat
                    } else {
                        0nat
                    }
                },
                Err(e) => {
                    &&& final(self).consumed() == old(self).consumed()
                    &&& final(self).ended() == old(self).ended()
                    &&& final(self).failure() == Some(e)
                    &&& final(self).failed_reads() == old(self).failed_reads() + 1
                    &&& final(self).end_reads() == old(self).end_reads()
                },
            },
    {
        let ghost room = buf@.len();
        let r = read_some(&mut self.reader, buf);
        proof {
            self.reads@ = self.reads@ + 1;
            if r is Ok {
                let n = r->Ok_0;
                self.consumed@ = self.consumed@ + buf@.take(n as int);
                if room > 0 {
                    self.ended@ = n == 0;
                    if n == 0 {
                        self.end_reads@ = self.end_reads@ + 1;
                    }
                }
                self.failure@ = None;
            } else {
                self.failure@ = Some(r->Err_0);
                self.failed_reads@ = self.failed_reads@ + 1;
            }
        }
        r
    }
}

/// An opened sink: bytes are written to it. Completing it is the work of
/// whoever opened it, who takes the writer back for that.
pub struct SinkStream<W> {
    writer: W,
    accepted: Ghost<Seq<u8>>,
    failure: Ghost<Option<std::io::Error>>,
    writes: Ghost<nat>,
    failed_writes: Ghost<nat>,
}

impl<W> SinkStream<W> {
    /// The writer that the stream holds, as it is now.
    pub closed spec fn writer(&self) -> W {
        self.writer
    }

    /// The bytes of the writes that the sink has accepted, in order.
    pub closed spec fn accepted(&self) -> Seq<u8> {
        self.accepted@
    }

    /// The error of the latest write, if it failed.
    pub closed spec fn failure(&self) -> Option<std::io::Error> {
        self.failure@
    }

    /// How many writes were asked of the stream.
    pub closed spec fn writes(&self) -> nat {
        self.writes@
    }

    /// How many of the writes failed.
    pub closed spec fn failed_writes(&self) -> nat {
        self.failed_writes@
    }

    /// Whether this is `before` after some more writes.
    pub open spec fn follows(&self, before: &Self) -> bool {
        &&& before.accepted().is_prefix_of(self.accepted())
        &&& self.writes() >= before.writes()
        &&& self.failed_writes() >= before.failed_writes()
    }

    /// How many writes were asked of the stream after it was as `before`.
    pub open spec fn writes_since(&self, before: &Self) -> int {
        self.writes() - before.writes()
    }

    /// How many writes failed after the stream was as `before`.
    pub open spec fn failed_writes_since(&self, before: &Self) -> int {
        self.failed_writes() - before.failed_writes()
    }

    /// The bytes that the sink accepted after it was as `before`.
    pub open spec fn written_since(&self, before: &Self) -> Seq<u8>
        recommends
            self.follows(before),
    {
        self.accepted().skip(before.accepted().len() as int)
    }

    /// Takes a writer that was just opened.
    pub fn new(writer: W) -> (r: Self)
        ensures
            r.writer() == writer,
            r.accepted() == Seq::<u8>::empty(),
            r.failure() is None,
            r.writes() == 0,
            r.failed_writes() == 0,
    {
        SinkStream {
            writer,
            accepted: Ghost(Seq::empty()),
            failure: Ghost(None),
            writes: Ghost(0),
            failed_writes: Ghost(0),
        }
    }

    /// Gives the writer back, to be completed.
    pub fn into_inner(self) -> (r: W)
        ensures
            r == self.writer(),
    {
        self.writer
    }
}

impl<W: std::io::Write> SinkStream<W> {
    /// Writes all of `data`, or fails. Data that was written whole is added
    /// to the record; a failed write adds none and leaves its error on
    /// record. Every write is counted, and so is every one that failed.
    pub fn write_all(&mut self, data: &[u8]) -> (r: Result<(), std::io::Error>)
        ensures
            final(self).writes() == old(self).writes() + 1,
            match r {
                Ok(_) => {
                    &&& final(self).accepted() == old(self).accepted() + data@
                    &&& final(self).failure() is None
                    &&& final(self).failed_writes() == old(self).failed_writes()
                },
                Err(e) => {
                    &&& final(self).accepted() == old(self).accepted()
                    &&& final(self).failure() == Some(e)
                    &&& final(self).failed_writes() == old(self).failed_writes() + 1
                },
            },
    {
        let r = write_whole(&mut self.writer, data);
        proof {
            self.writes@ = self.writes@ + 1;
            if r is Ok {
                self.accepted@ = self.accepted@ + data@;
                self.failure@ = None;
            } else {
                self.failure@ = Some(r->Err_0);
                self.failed_writes@ = self.failed_writes@ + 1;
            }
        }
        r
    }
}

} // verus!
