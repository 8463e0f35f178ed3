use indicatif::ProgressBar;
use std::io::{Error, ErrorKind, Read, Write};
use wcp::error::CopyError;
use wcp::progress::{progress_for, TEMPLATE, UNKNOWN_LENGTH};
use wcp::stream::{SinkStream, SourceStream};
use wcp::transfer::{io_copy_with_progress, transfer, DEFAULT_BUF_SIZE};

fn pattern(len: usize) -> Vec<u8> {
    (0..len).map(|i| (i * 31 % 251) as u8).collect()
}

fn round_trip(len: usize) {
    let data = pattern(len);
    let mut source = SourceStream::new(&data[..], Some(len as u64));
    let mut sink = SinkStream::new(Vec::new());
    let mut progress = ProgressBar::hidden();
    let total = io_copy_with_progress(&mut source, &mut sink, &mut progress).unwrap();
    assert_eq!(total, len as u64);
    assert_eq!(progress.position(), len as u64);
    assert_eq!(sink.into_inner(), data);
}

/// Hands out its bytes in pieces of at most `step`, then fails if told to.
struct Trickle {
    data: Vec<u8>,
    at: usize,
    step: usize,
    fail_at_end: bool,
    fail_with: ErrorKind,
    reads: usize,
}

impl Read for Trickle {
    fn read(&mut self, buf: &mut [u8]) -> std::io::Result<usize> {
        self.reads += 1;
        let left = self.data.len() - self.at;
        if left == 0 && self.fail_at_end {
            return Err(Error::new(self.fail_with, "failed"));
        }
        let n = left.min(self.step).min(buf.len());
        buf[..n].copy_from_slice(&self.data[self.at..self.at + n]);
        self.at += n;
        Ok(n)
    }
}

/// Accepts bytes up to a limit and fails on the write that would pass it.
struct Limited {
    taken: Vec<u8>,
    limit: usize,
    writes: Vec<usize>,
    refused: usize,
}

impl Write for Limited {
    fn write(&mut self, buf: &[u8]) -> std::io::Result<usize> {
        if self.taken.len() + buf.len() > self.limit {
            self.refused += 1;
            return Err(Error::new(ErrorKind::WriteZero, "full"));
        }
        self.writes.push(buf.len());
        self.taken.extend_from_slice(buf);
        Ok(buf.len())
    }

    fn flush(&mut self) -> std::io::Result<()> {
        Ok(())
    }
}

#[test]
fn buffer_size_is_eight_kibibytes() {
    assert_eq!(DEFAULT_BUF_SIZE, 8192);
}

#[test]
fn copies_nothing_from_an_empty_source() {
    round_trip(0);
}

#[test]
fn copies_one_byte() {
    round_trip(1);
}

#[test]
fn copies_exactly_one_buffer() {
    round_trip(8192);
}

#[test]
fn copies_one_byte_more_than_a_buffer() {
    round_trip(8193);
}

#[test]
fn copies_many_buffers() {
    round_trip(8192 * 5 + 17);
}

#[test]
fn copies_file_data() {
    let mut source = SourceStream::new("file_data".as_bytes(), None);
    let mut sink = SinkStream::new(Vec::new());
    let total = transfer(&mut source, &mut sink).unwrap();
    assert_eq!(total, 9);
    assert_eq!(sink.into_inner(), b"file_data");
}

#[test]
fn writes_each_chunk_whole_before_the_next_read() {
    let data = pattern(10_000);
    let reader = Trickle { data: data.clone(), at: 0, step: 3000, fail_at_end: false, fail_with: ErrorKind::ConnectionReset, reads: 0 };
    let mut source = SourceStream::new(reader, None);
    let mut sink = SinkStream::new(Limited { taken: Vec::new(), limit: usize::MAX, writes: Vec::new(), refused: 0 });
    let mut progress = ProgressBar::hidden();
    let total = io_copy_with_progress(&mut source, &mut sink, &mut progress).unwrap();
    assert_eq!(total, 10_000);
    let sink = sink.into_inner();
    assert_eq!(sink.writes, vec![3000, 3000, 3000, 1000]);
    assert_eq!(sink.taken, data);
}

#[test]
fn reads_at_most_one_buffer_at_a_time() {
    let data = pattern(20_000);
    let reader = Trickle { data: data.clone(), at: 0, step: usize::MAX, fail_at_end: false, fail_with: ErrorKind::ConnectionReset, reads: 0 };
    let mut source = SourceStream::new(reader, None);
    let mut sink = SinkStream::new(Limited { taken: Vec::new(), limit: usize::MAX, writes: Vec::new(), refused: 0 });
    let total = transfer(&mut source, &mut sink).unwrap();
    assert_eq!(total, 20_000);
    let sink = sink.into_inner();
    assert_eq!(sink.writes, vec![8192, 8192, 3616]);
    assert_eq!(sink.taken, data);
}

#[test]
fn progress_moves_by_the_bytes_written() {
    let data = pattern(12_345);
    let mut source = SourceStream::new(&data[..], Some(12_345));
    let mut sink = SinkStream::new(Vec::new());
    let mut progress = ProgressBar::hidden();
    progress.inc(5);
    let total = io_copy_with_progress(&mut source, &mut sink, &mut progress).unwrap();
    assert_eq!(total, 12_345);
    assert_eq!(progress.position(), 12_350);
}

#[test]
fn progress_stops_at_the_largest_position() {
    let data = pattern(10);
    let mut source = SourceStream::new(&data[..], None);
    let mut sink = SinkStream::new(Vec::new());
    let mut progress = ProgressBar::hidden();
    progress.set_position(u64::MAX - 4);
    let total = io_copy_with_progress(&mut source, &mut sink, &mut progress).unwrap();
    assert_eq!(total, 10);
    assert_eq!(progress.position(), u64::MAX);
}

#[test]
fn a_failed_read_ends_the_transfer() {
    let data = pattern(9000);
    let reader = Trickle {
        data: data.clone(),
        at: 0,
        step: 4000,
        fail_at_end: true,
        fail_with: ErrorKind::ConnectionReset,
        reads: 0,
    };
    let mut source = SourceStream::new(reader, None);
    let mut sink = SinkStream::new(Limited { taken: Vec::new(), limit: usize::MAX, writes: Vec::new(), refused: 0 });
    let mut progress = ProgressBar::hidden();
    let error = io_copy_with_progress(&mut source, &mut sink, &mut progress).unwrap_err();
    assert_eq!(error.kind(), ErrorKind::ConnectionReset);
    assert_eq!(progress.position(), 9000);
    assert_eq!(source.into_inner().reads, 4);
    let sink = sink.into_inner();
    assert_eq!(sink.writes, vec![4000, 4000, 1000]);
    assert_eq!(sink.taken, data);
}

#[test]
fn an_interrupted_read_is_not_tried_again() {
    let data = pattern(100);
    let reader = Trickle {
        data: data.clone(),
        at: 0,
        step: 60,
        fail_at_end: true,
        fail_with: ErrorKind::Interrupted,
        reads: 0,
    };
    let mut source = SourceStream::new(reader, None);
    let mut sink = SinkStream::new(Vec::new());
    let mut progress = ProgressBar::hidden();
    let error = io_copy_with_progress(&mut source, &mut sink, &mut progress).unwrap_err();
    assert_eq!(error.kind(), ErrorKind::Interrupted);
    assert_eq!(progress.position(), 100);
    assert_eq!(source.into_inner().reads, 3);
    assert_eq!(sink.into_inner(), data);
}

#[test]
fn a_failed_write_ends_the_transfer() {
    let data = pattern(20_000);
    let reader = Trickle {
        data: data.clone(),
        at: 0,
        step: usize::MAX,
        fail_at_end: false,
        fail_with: ErrorKind::ConnectionReset,
        reads: 0,
    };
    let mut source = SourceStream::new(reader, None);
    let mut sink = SinkStream::new(Limited { taken: Vec::new(), limit: 10_000, writes: Vec::new(), refused: 0 });
    let mut progress = ProgressBar::hidden();
    let error = io_copy_with_progress(&mut source, &mut sink, &mut progress).unwrap_err();
    assert_eq!(error.kind(), ErrorKind::WriteZero);
    assert_eq!(progress.position(), 8192);
    assert_eq!(source.into_inner().reads, 2);
    let sink = sink.into_inner();
    assert_eq!(sink.writes, vec![8192]);
    assert_eq!(sink.refused, 1);
    assert_eq!(sink.taken, &data[..8192]);
}

#[test]
fn no_read_follows_the_end_of_the_source() {
    let data = pattern(10_000);
    let reader = Trickle {
        data: data.clone(),
        at: 0,
        step: 3000,
        fail_at_end: false,
        fail_with: ErrorKind::ConnectionReset,
        reads: 0,
    };
    let mut source = SourceStream::new(reader, None);
    let mut sink = SinkStream::new(Vec::new());
    assert_eq!(transfer(&mut source, &mut sink).unwrap(), 10_000);
    assert_eq!(source.into_inner().reads, 5);
}

#[test]
fn transfer_keeps_what_was_written_before_a_failure() {
    let data = pattern(20_000);
    let reader = Trickle {
        data: data.clone(),
        at: 0,
        step: usize::MAX,
        fail_at_end: false,
        fail_with: ErrorKind::ConnectionReset,
        reads: 0,
    };
    let mut source = SourceStream::new(reader, None);
    let mut sink = SinkStream::new(Limited { taken: Vec::new(), limit: 17_000, writes: Vec::new(), refused: 0 });
    match transfer(&mut source, &mut sink) {
        Err(CopyError::Io(error)) => assert_eq!(error.kind(), ErrorKind::WriteZero),
        other => panic!("ended in {:?}", other),
    }
    assert_eq!(source.into_inner().reads, 3);
    let sink = sink.into_inner();
    assert_eq!(sink.writes, vec![8192, 8192]);
    assert_eq!(sink.refused, 1);
    assert_eq!(sink.taken, &data[..16_384]);
}

#[test]
fn transfer_reports_a_failure_as_an_io_error() {
    let reader = Trickle { data: Vec::new(), at: 0, step: 1, fail_at_end: true, fail_with: ErrorKind::ConnectionReset, reads: 0 };
    let mut source = SourceStream::new(reader, None);
    let mut sink = SinkStream::new(Vec::new());
    match transfer(&mut source, &mut sink) {
        Err(CopyError::Io(error)) => assert_eq!(error.kind(), ErrorKind::ConnectionReset),
        other => panic!("ended in {:?}", other),
    }
}

#[test]
fn copy_error_keeps_the_kind_of_failure() {
    let error = CopyError::from(Error::new(ErrorKind::NotFound, "missing"));
    assert!(matches!(error, CopyError::Io(ref e) if e.kind() == ErrorKind::NotFound));

    let error = CopyError::from(http_io::error::Error::LengthRequired);
    assert!(matches!(error, CopyError::Http(http_io::error::Error::LengthRequired)));
}

#[test]
fn source_stream_reports_its_size() {
    let source = SourceStream::new("abc".as_bytes(), Some(3));
    assert_eq!(source.stream_size(), Some(3));
    let source = SourceStream::new("abc".as_bytes(), None);
    assert_eq!(source.stream_size(), None);
}

#[test]
fn source_stream_reads_into_the_front_of_the_buffer() {
    let mut source = SourceStream::new("abc".as_bytes(), None);
    let mut buf = [0u8; 8];
    assert_eq!(source.read(&mut buf).unwrap(), 3);
    assert_eq!(&buf[..3], b"abc");
    assert_eq!(source.read(&mut buf).unwrap(), 0);
}

#[test]
fn sink_stream_writes_everything() {
    let mut sink = SinkStream::new(Vec::new());
    sink.write_all(b"file_").unwrap();
    sink.write_all(b"data").unwrap();
    assert_eq!(sink.into_inner(), b"file_data");
}

#[test]
fn known_size_gives_a_bar_of_that_length() {
    let bar = progress_for(Some(1234));
    assert_eq!(bar.length(), 1234);
    assert_eq!(bar.position(), 0);
}

#[test]
fn unknown_size_gives_a_spinner() {
    let bar = progress_for(None);
    assert_eq!(bar.length(), UNKNOWN_LENGTH);
    assert_eq!(bar.length(), u64::MAX);
    assert_eq!(bar.position(), 0);
}

#[test]
fn template_shows_bytes_and_rate() {
    assert_eq!(TEMPLATE, "{wide_bar} {bytes}/{total_bytes} ({bytes_per_sec}) (eta {eta})");
}
