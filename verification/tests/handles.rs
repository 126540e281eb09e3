use async_pipe::{pipe, pipe_with_capacity, Attempt, PipeError, PipeReader, PipeWriter};
use std::sync::{Arc, Mutex};
use std::task::{Context, Wake, Waker};

struct Bell {
    rings: Mutex<usize>,
}

impl Wake for Bell {
    fn wake(self: Arc<Self>) {
        *self.rings.lock().unwrap() += 1;
    }
}

fn bell() -> Arc<Bell> {
    Arc::new(Bell { rings: Mutex::new(0) })
}

fn rings(bell: &Arc<Bell>) -> usize {
    *bell.rings.lock().unwrap()
}

/// Writes all of `data`, or stops at the first attempt that would block or
/// fails; returns how many bytes went in and the answer that stopped it.
fn write_all(
    writer: &mut PipeWriter,
    waker: &Waker,
    data: &[u8],
) -> (usize, Attempt<Result<usize, PipeError>>) {
    let mut cx = Context::from_waker(waker);
    let mut done = 0;
    while done < data.len() {
        match writer.poll_write(&mut cx, &data[done..]) {
            Attempt::Ready(Ok(n)) => done += n,
            other => return (done, other),
        }
    }
    (done, Attempt::Ready(Ok(0)))
}

/// Reads until end of stream, or stops at the first attempt that would block
/// or fails; returns the answer that stopped it.
fn read_to_end(
    reader: &mut PipeReader,
    waker: &Waker,
    sink: &mut Vec<u8>,
) -> Attempt<Result<usize, PipeError>> {
    let mut cx = Context::from_waker(waker);
    loop {
        let mut chunk = [0u8; 32];
        match reader.poll_read(&mut cx, &mut chunk) {
            Attempt::Ready(Ok(0)) => return Attempt::Ready(Ok(0)),
            Attempt::Ready(Ok(n)) => sink.extend_from_slice(&chunk[..n]),
            other => return other,
        }
    }
}

#[test]
fn read_write() {
    let (mut writer, mut reader) = pipe();
    let data = b"hello world";
    let reader_bell = bell();
    let writer_bell = bell();
    let reader_waker = Waker::from(reader_bell.clone());
    let writer_waker = Waker::from(writer_bell.clone());

    let mut read_buf = Vec::new();
    assert_eq!(
        read_to_end(&mut reader, &reader_waker, &mut read_buf),
        Attempt::Pending
    );

    let (written, last) = write_all(&mut writer, &writer_waker, data);
    assert_eq!(written, 11);
    assert_eq!(last, Attempt::Ready(Ok(0)));
    assert_eq!(rings(&reader_bell), 1);
    drop(writer);

    assert_eq!(
        read_to_end(&mut reader, &reader_waker, &mut read_buf),
        Attempt::Ready(Ok(0))
    );
    assert_eq!(&read_buf, data);
}

#[test]
fn eof_when_writer_is_shutdown() {
    let (mut writer, mut reader) = pipe();
    let waker = Waker::from(bell());
    let mut cx = Context::from_waker(&waker);
    assert_eq!(writer.poll_shutdown(&mut cx), Attempt::Ready(Ok(())));
    let mut buf = [0u8; 8];
    let bytes_read = reader.poll_read(&mut cx, &mut buf);
    assert_eq!(bytes_read, Attempt::Ready(Ok(0)));
}

#[test]
fn broken_pipe_when_reader_is_dropped() {
    let (mut writer, reader) = pipe();
    drop(reader);
    let waker = Waker::from(bell());
    let (written, last) = write_all(&mut writer, &waker, &[0u8; 8]);
    assert_eq!(written, 0);
    assert_eq!(last, Attempt::Ready(Err(PipeError::BrokenPipe)));
}

#[test]
fn eof_when_writer_is_dropped() {
    let (writer, mut reader) = pipe();
    drop(writer);
    let waker = Waker::from(bell());
    let mut cx = Context::from_waker(&waker);
    let mut buf = [0u8; 8];
    let bytes_read = reader.poll_read(&mut cx, &mut buf);
    assert_eq!(bytes_read, Attempt::Ready(Ok(0)));
}

#[test]
fn drop_read_exact() {
    let (mut writer, mut reader) = pipe();
    let reader_bell = bell();
    let reader_waker = Waker::from(reader_bell.clone());
    let writer_waker = Waker::from(bell());
    let mut reader_cx = Context::from_waker(&reader_waker);

    let mut buf = [1u8; 8];
    assert_eq!(reader.poll_read(&mut reader_cx, &mut buf), Attempt::Pending);
    assert_eq!(buf, [1u8; 8]);

    let (written, last) = write_all(&mut writer, &writer_waker, &[0u8; 8]);
    assert_eq!(written, 8);
    assert_eq!(last, Attempt::Ready(Ok(0)));
    assert_eq!(rings(&reader_bell), 1);

    assert_eq!(
        reader.poll_read(&mut reader_cx, &mut buf),
        Attempt::Ready(Ok(8))
    );
    assert_eq!(buf, [0u8; 8]);
    drop(reader);

    let mut writer_cx = Context::from_waker(&writer_waker);
    assert_eq!(
        writer.poll_write(&mut writer_cx, &[0u8; 8]),
        Attempt::Ready(Err(PipeError::BrokenPipe))
    );
}

#[test]
fn hello_world_through_a_pipe_of_eleven_bytes() {
    let (mut writer, mut reader) = pipe_with_capacity(11);
    let reader_waker = Waker::from(bell());
    let writer_waker = Waker::from(bell());
    let mut writer_cx = Context::from_waker(&writer_waker);

    let mut seen = Vec::new();
    assert_eq!(
        read_to_end(&mut reader, &reader_waker, &mut seen),
        Attempt::Pending
    );
    assert_eq!(
        writer.poll_write(&mut writer_cx, b"hello world"),
        Attempt::Ready(Ok(11))
    );
    assert_eq!(writer.is_flushed(), Ok(false));
    assert_eq!(
        read_to_end(&mut reader, &reader_waker, &mut seen),
        Attempt::Pending
    );
    assert_eq!(seen, b"hello world".to_vec());
    assert_eq!(reader.is_flushed(), Ok(true));
    assert_eq!(writer.close(), Ok(()));
    assert_eq!(
        read_to_end(&mut reader, &reader_waker, &mut seen),
        Attempt::Ready(Ok(0))
    );
    assert_eq!(seen, b"hello world".to_vec());
}

#[test]
fn writer_blocks_on_a_full_pipe_until_the_reader_drains() {
    let (mut writer, mut reader) = pipe_with_capacity(4);
    let writer_bell = bell();
    let reader_bell = bell();
    let writer_waker = Waker::from(writer_bell.clone());
    let reader_waker = Waker::from(reader_bell.clone());
    let mut reader_cx = Context::from_waker(&reader_waker);

    let data = [1u8, 2, 3, 4, 5, 6];
    let (written, last) = write_all(&mut writer, &writer_waker, &data);
    assert_eq!(written, 4);
    assert_eq!(last, Attempt::Pending);
    assert_eq!(rings(&writer_bell), 0);

    let mut buf = [0u8; 3];
    assert_eq!(
        reader.poll_read(&mut reader_cx, &mut buf),
        Attempt::Ready(Ok(3))
    );
    assert_eq!(buf, [1, 2, 3]);
    assert_eq!(rings(&writer_bell), 1);

    let (written, last) = write_all(&mut writer, &writer_waker, &data[4..]);
    assert_eq!(written, 2);
    assert_eq!(last, Attempt::Ready(Ok(0)));

    let mut rest = [0u8; 8];
    assert_eq!(
        reader.poll_read(&mut reader_cx, &mut rest),
        Attempt::Ready(Ok(3))
    );
    assert_eq!(&rest[..3], &[4, 5, 6]);
    assert_eq!(&rest[3..], &[0u8; 5]);
}

#[test]
fn closing_the_writer_wakes_a_parked_reader() {
    let (writer, mut reader) = pipe();
    let reader_bell = bell();
    let reader_waker = Waker::from(reader_bell.clone());
    let mut cx = Context::from_waker(&reader_waker);
    let mut buf = [0u8; 4];
    assert_eq!(reader.poll_read(&mut cx, &mut buf), Attempt::Pending);
    assert_eq!(rings(&reader_bell), 0);
    assert_eq!(writer.close(), Ok(()));
    assert_eq!(rings(&reader_bell), 1);
    assert_eq!(reader.poll_read(&mut cx, &mut buf), Attempt::Ready(Ok(0)));
}

#[test]
fn a_dropped_writer_ends_the_stream_at_the_next_read() {
    let (writer, mut reader) = pipe();
    let reader_waker = Waker::from(bell());
    let mut cx = Context::from_waker(&reader_waker);
    let mut buf = [0u8; 4];
    assert_eq!(reader.poll_read(&mut cx, &mut buf), Attempt::Pending);
    drop(writer);
    assert_eq!(reader.poll_read(&mut cx, &mut buf), Attempt::Ready(Ok(0)));
}

#[test]
fn closing_the_reader_wakes_a_parked_writer() {
    let (mut writer, reader) = pipe_with_capacity(2);
    let writer_bell = bell();
    let writer_waker = Waker::from(writer_bell.clone());
    let mut cx = Context::from_waker(&writer_waker);
    assert_eq!(writer.poll_write(&mut cx, &[9, 9, 9]), Attempt::Ready(Ok(2)));
    assert_eq!(writer.poll_write(&mut cx, &[9]), Attempt::Pending);
    assert_eq!(rings(&writer_bell), 0);
    assert_eq!(reader.close(), Ok(()));
    assert_eq!(rings(&writer_bell), 1);
    assert_eq!(
        writer.poll_write(&mut cx, &[9]),
        Attempt::Ready(Err(PipeError::BrokenPipe))
    );
    assert_eq!(
        writer.poll_flush(&mut cx),
        Attempt::Ready(Err(PipeError::BrokenPipe))
    );
}

#[test]
fn a_dropped_reader_breaks_the_pipe_at_the_next_write() {
    let (mut writer, reader) = pipe_with_capacity(2);
    let writer_waker = Waker::from(bell());
    let mut cx = Context::from_waker(&writer_waker);
    assert_eq!(writer.poll_write(&mut cx, &[9, 9, 9]), Attempt::Ready(Ok(2)));
    assert_eq!(writer.poll_write(&mut cx, &[9]), Attempt::Pending);
    drop(reader);
    assert_eq!(
        writer.poll_write(&mut cx, &[9]),
        Attempt::Ready(Err(PipeError::BrokenPipe))
    );
    assert_eq!(
        writer.poll_flush(&mut cx),
        Attempt::Ready(Err(PipeError::BrokenPipe))
    );
}

#[test]
fn reads_drain_what_a_dropped_writer_left_behind() {
    let (mut writer, mut reader) = pipe();
    let waker = Waker::from(bell());
    let mut cx = Context::from_waker(&waker);
    assert_eq!(writer.poll_write(&mut cx, b"abcde"), Attempt::Ready(Ok(5)));
    drop(writer);
    let mut buf = [0u8; 3];
    assert_eq!(reader.poll_read(&mut cx, &mut buf), Attempt::Ready(Ok(3)));
    assert_eq!(&buf, b"abc");
    assert_eq!(reader.poll_read(&mut cx, &mut buf), Attempt::Ready(Ok(2)));
    assert_eq!(&buf, b"dec");
    assert_eq!(reader.poll_read(&mut cx, &mut buf), Attempt::Ready(Ok(0)));
    assert_eq!(reader.poll_read(&mut cx, &mut buf), Attempt::Ready(Ok(0)));
}

#[test]
fn flush_waits_for_the_reader() {
    let (mut writer, mut reader) = pipe();
    let writer_bell = bell();
    let writer_waker = Waker::from(writer_bell.clone());
    let reader_waker = Waker::from(bell());
    let mut writer_cx = Context::from_waker(&writer_waker);
    let mut reader_cx = Context::from_waker(&reader_waker);

    assert_eq!(writer.poll_flush(&mut writer_cx), Attempt::Ready(Ok(())));
    assert_eq!(writer.poll_write(&mut writer_cx, b"xy"), Attempt::Ready(Ok(2)));
    assert_eq!(writer.poll_flush(&mut writer_cx), Attempt::Pending);
    let mut buf = [0u8; 2];
    assert_eq!(
        reader.poll_read(&mut reader_cx, &mut buf),
        Attempt::Ready(Ok(2))
    );
    assert_eq!(rings(&writer_bell), 1);
    assert_eq!(writer.poll_flush(&mut writer_cx), Attempt::Ready(Ok(())));
}

#[test]
fn closing_is_idempotent_on_both_sides() {
    let (mut writer, mut reader) = pipe();
    let waker = Waker::from(bell());
    let mut cx = Context::from_waker(&waker);
    assert_eq!(writer.close(), Ok(()));
    assert_eq!(writer.close(), Ok(()));
    assert_eq!(reader.close(), Ok(()));
    assert_eq!(reader.close(), Ok(()));
    assert_eq!(
        writer.poll_write(&mut cx, b"late"),
        Attempt::Ready(Err(PipeError::BrokenPipe))
    );
    let mut buf = [0u8; 4];
    assert_eq!(reader.poll_read(&mut cx, &mut buf), Attempt::Ready(Ok(0)));
}

#[test]
fn default_capacity_is_one_kibibyte() {
    let (mut writer, _reader) = pipe();
    let waker = Waker::from(bell());
    let mut cx = Context::from_waker(&waker);
    let big = vec![7u8; 2000];
    assert_eq!(writer.poll_write(&mut cx, &big), Attempt::Ready(Ok(1024)));
    assert_eq!(writer.poll_write(&mut cx, &big), Attempt::Pending);
    assert!(writer.poll_write(&mut cx, &big).is_pending());
    assert!(!writer.poll_write(&mut cx, &big).is_ready());
}

#[test]
fn the_task_that_polled_last_is_the_one_woken() {
    let (mut writer, mut reader) = pipe_with_capacity(4);
    let first = bell();
    let second = bell();
    let first_waker = Waker::from(first.clone());
    let second_waker = Waker::from(second.clone());
    let writer_waker = Waker::from(bell());
    let mut buf = [0u8; 4];
    {
        let mut cx = Context::from_waker(&first_waker);
        assert_eq!(reader.poll_read(&mut cx, &mut buf), Attempt::Pending);
    }
    {
        let mut cx = Context::from_waker(&second_waker);
        assert_eq!(reader.poll_read(&mut cx, &mut buf), Attempt::Pending);
    }
    let mut cx = Context::from_waker(&writer_waker);
    assert_eq!(writer.poll_write(&mut cx, b"hi"), Attempt::Ready(Ok(2)));
    assert_eq!(rings(&first), 0);
    assert_eq!(rings(&second), 1);
}

#[test]
fn a_new_pipe_is_empty_open_and_bounded_by_its_capacity() {
    let (mut writer, mut reader) = pipe_with_capacity(3);
    let waker = Waker::from(bell());
    let mut cx = Context::from_waker(&waker);
    assert_eq!(writer.is_flushed(), Ok(true));
    assert_eq!(reader.is_flushed(), Ok(true));
    let mut buf = [0u8; 8];
    assert_eq!(reader.poll_read(&mut cx, &mut buf), Attempt::Pending);
    assert_eq!(writer.poll_write(&mut cx, &[1, 2]), Attempt::Ready(Ok(2)));
    assert_eq!(writer.poll_write(&mut cx, &[3, 4]), Attempt::Ready(Ok(1)));
    assert_eq!(writer.poll_write(&mut cx, &[4]), Attempt::Pending);
    assert_eq!(reader.poll_read(&mut cx, &mut buf), Attempt::Ready(Ok(3)));
    assert_eq!(&buf[..3], &[1, 2, 3]);
}

#[test]
fn two_pipes_do_not_share_a_state() {
    let (mut w1, r1) = pipe();
    let (_w2, mut r2) = pipe();
    let waker = Waker::from(bell());
    let mut cx = Context::from_waker(&waker);
    assert_eq!(w1.poll_write(&mut cx, b"x"), Attempt::Ready(Ok(1)));
    drop(w1);
    assert_eq!(r1.is_flushed(), Ok(false));
    assert_eq!(r2.is_flushed(), Ok(true));
    let mut buf = [0u8; 1];
    assert_eq!(r2.poll_read(&mut cx, &mut buf), Attempt::Pending);
}
