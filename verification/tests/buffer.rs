use std::io::ErrorKind;
use vmap::io::{BufReader, BufWriter, Flushing, Reading, Ring, SeqRead, SeqWrite, Writing, Written};

const BASE: usize = 0x7d00_0000_0000;

#[test]
fn reader_keeps_its_parts() {
    let mut rd = BufReader::new("inner", BASE, 4096);
    assert_eq!(rd.lowat(), 0);
    rd.set_lowat(usize::MAX);
    assert_eq!(rd.lowat(), usize::MAX);
    assert_eq!(*rd.get_ref(), "inner");
    *rd.get_mut() = "other";
    assert_eq!(rd.buffer(), 0..0);
    assert_eq!(rd.into_inner(), "other");
}

#[test]
fn reader_reads_past_an_empty_buffer() {
    let mut rd = BufReader::new((), BASE, 4096);
    assert_eq!(rd.read(4096), Reading::Direct);
    assert_eq!(rd.read(10000), Reading::Direct);
    assert_eq!(rd.read(4095), Reading::Buffered);
    assert_eq!(rd.read(0), Reading::Buffered);
    rd.feed(1);
    assert_eq!(rd.read(4096), Reading::Buffered);
}

#[test]
fn reader_fills_at_the_low_water_mark() {
    let mut rd = BufReader::new((), BASE, 4096);
    // empty: at the mark of zero
    assert_eq!(rd.fill_buf(), Some(0..4096));
    rd.feed(12);
    assert_eq!(rd.buffer(), 0..12);
    assert_eq!(rd.fill_buf(), None);
    assert_eq!(rd.read_from(6), 0..6);
    assert_eq!(rd.buffer(), 6..12);
    rd.set_lowat(6);
    assert_eq!(rd.fill_buf(), Some(12..4102));
    rd.set_lowat(5);
    assert_eq!(rd.fill_buf(), None);
    rd.consume(6);
    assert_eq!(rd.buffer(), 12..12);
    assert_eq!(rd.fill_buf(), Some(12..4108));
    assert_eq!(rd.read_from(100), 12..12);
}

#[test]
fn writer_buffers_what_fits() {
    let mut wr = BufWriter::new("inner", BASE, 4096);
    assert_eq!(*wr.get_ref(), "inner");
    *wr.get_mut() = "other";
    assert!(wr.flush_on_drop());
    assert!(!wr.must_flush(4096));
    assert!(wr.must_flush(4097));
    match wr.write(12) {
        Writing::Buffered(dst) => assert_eq!(dst, 0..12),
        Writing::Direct => panic!("twelve bytes fit"),
    }
    assert_eq!(wr.buffer(), 0..12);
    assert!(!wr.must_flush(4084));
    assert!(wr.must_flush(4085));
    // what fills the free part or more goes past the buffer
    assert!(matches!(wr.write(4084), Writing::Direct));
    assert!(!wr.flush_on_drop());
    wr.written();
    assert!(wr.flush_on_drop());
    assert_eq!(wr.buffer(), 0..12);
    assert!(matches!(wr.write(4083), Writing::Buffered(_)));
    assert_eq!(wr.buffer(), 0..4095);
}

#[test]
fn writer_flushes_until_empty() {
    let mut ring = Ring::new(BASE, 4096);
    ring.feed(12);
    let mut wr = BufWriter::from_parts((), ring);
    assert_eq!(wr.flush_buf(), Some(0..12));
    assert!(!wr.flush_on_drop());
    assert_eq!(wr.flushed(Written::Bytes(6)), Flushing::Again);
    assert!(wr.flush_on_drop());
    assert_eq!(wr.flush_buf(), Some(6..12));
    assert_eq!(wr.flushed(Written::Interrupted), Flushing::Again);
    assert_eq!(wr.flush_buf(), Some(6..12));
    assert_eq!(wr.flushed(Written::Bytes(100)), Flushing::Again);
    assert_eq!(wr.flush_buf(), None);
    assert!(wr.flush_on_drop());
    assert!(wr.into_inner(Ok(())).is_ok());
}

#[test]
fn writer_stops_at_a_failure() {
    let mut ring = Ring::new(BASE, 4096);
    ring.feed(12);
    let mut wr = BufWriter::from_parts("inner", ring);
    assert_eq!(wr.flush_buf(), Some(0..12));
    assert_eq!(wr.flushed(Written::Bytes(0)), Flushing::WriteZero);
    assert_eq!(wr.flush_buf(), Some(0..12));
    assert_eq!(wr.flushed(Written::Failed), Flushing::Failed);
    assert_eq!(wr.buffer(), 0..12);

    // the same with the results of a writer
    assert_eq!(wr.flush_buf(), Some(0..12));
    assert!(wr.flush_result(Ok(6)).is_none());
    assert_eq!(wr.flush_buf(), Some(6..12));
    assert!(wr.flush_result(Err(ErrorKind::Interrupted.into())).is_none());
    assert_eq!(wr.buffer(), 6..12);
    assert_eq!(wr.flush_buf(), Some(6..12));
    let err = wr.flush_result(Ok(0)).expect("a write of no bytes");
    assert_eq!(err.kind(), ErrorKind::WriteZero);
    assert_eq!(wr.flush_buf(), Some(6..12));
    let err = wr
        .flush_result(Err(ErrorKind::BrokenPipe.into()))
        .expect("a broken pipe");
    assert_eq!(err.kind(), ErrorKind::BrokenPipe);
    assert!(wr.flush_on_drop());

    // the writer comes back with the error
    let failed = match wr.into_inner(Err(err)) {
        Ok(_) => panic!("the flush failed"),
        Err(failed) => failed,
    };
    assert_eq!(failed.error().kind(), ErrorKind::BrokenPipe);
    let (err, wr) = failed.into_parts();
    assert_eq!(err.kind(), ErrorKind::BrokenPipe);
    let (inner, ring) = wr.into_parts();
    assert_eq!(inner, "inner");
    let ring = match ring {
        Ok(ring) => ring,
        Err(_) => panic!("no call is under way"),
    };
    assert_eq!(ring.as_read_slice(usize::MAX), 6..12);
}

#[test]
fn writer_that_never_came_back() {
    let mut ring = Ring::new(BASE, 4096);
    ring.feed(7);
    let mut wr = BufWriter::from_parts("inner", ring);
    assert_eq!(wr.flush_buf(), Some(0..7));
    // the inner writer panics here and `flushed` is never called
    let (inner, ring) = wr.into_parts();
    assert_eq!(inner, "inner");
    let panicked = match ring {
        Ok(_) => panic!("a call was under way"),
        Err(panicked) => panicked,
    };
    assert_eq!(
        panicked.description(),
        "writer panicked, unwritten data may remain"
    );
    assert_eq!(panicked.into_inner().as_read_slice(usize::MAX), 0..7);

    let wr = BufWriter::new("inner", BASE, 4096);
    let failed = match wr.into_inner(Err(ErrorKind::Other.into())) {
        Ok(_) => panic!("the flush failed"),
        Err(failed) => failed,
    };
    assert_eq!(failed.into_error().kind(), ErrorKind::Other);
    let wr = BufWriter::new("inner", BASE, 4096);
    let failed = match wr.into_inner(Err(ErrorKind::Other.into())) {
        Ok(_) => panic!("the flush failed"),
        Err(failed) => failed,
    };
    assert_eq!(*failed.into_inner().get_ref(), "inner");
}

#[test]
fn buffers_show_their_ring() {
    let mut rd = BufReader::new((), BASE, 4096);
    rd.feed(10);
    rd.consume(4);
    assert_eq!(rd.as_ring().as_read_ptr(), BASE);
    assert_eq!(rd.as_ring().write_capacity(), 4096);
    assert_eq!(rd.as_ring().read_len(), 6);
    assert!(rd.as_ring().has_room(4096));

    let mut wr = BufWriter::new((), BASE, 8192);
    assert!(matches!(wr.write(100), Writing::Buffered(_)));
    assert_eq!(wr.as_ring().as_read_ptr(), BASE);
    assert_eq!(wr.as_ring().write_capacity(), 8192);
    assert_eq!(wr.as_ring().read_len(), 100);
    assert_eq!(wr.as_ring().written(), 100);
}
