use vmap::io::{InfiniteRing, Ring, SeqRead, SeqWrite};
use vmap::{ByteRange, Size};

/// Stands in for the host: a doubled range of `2 * half` bytes, in which a
/// byte written at one offset shows at the offset `half` bytes away too.
struct Doubled {
    base: usize,
    half: usize,
    bytes: Vec<u8>,
}

impl Doubled {
    fn map(half: usize) -> Doubled {
        Doubled {
            base: 0x7e00_0000_0000,
            half,
            bytes: vec![0u8; 2 * half],
        }
    }

    fn write(&mut self, at: &ByteRange, src: &[u8]) {
        assert_eq!(at.end - at.start, src.len());
        assert!(at.end <= 2 * self.half);
        for (i, b) in src.iter().enumerate() {
            let off = (at.start + i) % self.half;
            self.bytes[off] = *b;
            self.bytes[off + self.half] = *b;
        }
    }

    fn read(&self, at: &ByteRange) -> &[u8] {
        &self.bytes[at.start..at.end]
    }
}

fn write(ring: &mut Ring, mem: &mut Doubled, buf: &[u8]) -> usize {
    let dst = ring.write_into(buf.len());
    let n = dst.end - dst.start;
    mem.write(&dst, &buf[..n]);
    n
}

/// Writes all of `buf` as `std::io::Write::write_all` does: it fails once a
/// write takes no byte.
fn write_all(ring: &mut Ring, mem: &mut Doubled, mut buf: &[u8]) -> Result<(), &'static str> {
    while !buf.is_empty() {
        match write(ring, mem, buf) {
            0 => return Err("failed to write whole buffer"),
            n => buf = &buf[n..],
        }
    }
    Ok(())
}

fn infinite_write_all(ring: &mut InfiniteRing, mem: &mut Doubled, buf: &[u8]) {
    let (tail, dst) = ring.write_all(buf.len());
    mem.write(&dst, &buf[tail..]);
}

fn read_line(ring: &mut Ring, mem: &Doubled) -> String {
    let all = ring.fill_buf();
    let bytes = mem.read(&all);
    let n = match bytes.iter().position(|b| *b == b'\n') {
        Some(i) => i + 1,
        None => bytes.len(),
    };
    let line = String::from_utf8(bytes[..n].to_vec()).unwrap();
    ring.consume(n);
    line
}

fn new_ring(hint: usize) -> (Ring, Doubled, Size) {
    let sz = Size::with_size(4096);
    let len = Ring::size_for(hint, &sz);
    let mem = Doubled::map(len);
    (Ring::new(mem.base, len), mem, sz)
}

fn new_infinite(hint: usize) -> (InfiniteRing, Doubled, Size) {
    let sz = Size::with_size(4096);
    let len = InfiniteRing::size_for(hint, &sz);
    let mem = Doubled::map(len);
    (InfiniteRing::new(mem.base, len), mem, sz)
}

#[test]
fn ring_size() {
    let (mut ring, mut mem, sz) = new_ring(1000);
    assert_eq!(ring.write_capacity(), sz.size(1));
    assert_eq!(ring.read_len(), 0);
    assert_eq!(ring.write_len(), sz.size(1));

    let bytes = String::from("test").into_bytes();
    write_all(&mut ring, &mut mem, &bytes).expect("failed to write all bytes");
    assert_eq!(ring.write_capacity(), sz.size(1));
    assert_eq!(ring.read_len(), 4);
    assert_eq!(ring.write_len(), sz.size(1) - 4);
}

#[test]
fn ring_wrap() {
    let (mut ring, mut mem, _) = new_ring(1000);
    // pick some bytes that won't fit evenly in the ring
    let bytes = b"anthropomorphologically";
    let n = ring.write_capacity() / bytes.len();
    for _ in 0..n {
        write_all(&mut ring, &mut mem, bytes).expect("failed to write");
    }
    assert_eq!(ring.read_len(), n * bytes.len());
    ring.consume((n - 1) * bytes.len());
    assert_eq!(ring.read_len(), bytes.len());
    write_all(&mut ring, &mut mem, bytes).expect("failed to write");
    assert_eq!(ring.read_len(), 2 * bytes.len());

    let cmp = b"anthropomorphologicallyanthropomorphologically";
    assert_eq!(mem.read(&ring.as_read_slice(cmp.len())), &cmp[..]);
}

#[test]
fn ring_overwrite() {
    let (mut ring, mut mem, _) = new_infinite(1000);
    let bytes = b"anthropomorphologically";
    let n = 2 * ring.write_capacity() / bytes.len() + 1;
    for _ in 0..n {
        infinite_write_all(&mut ring, &mut mem, bytes);
    }
    assert_eq!(ring.read_len(), ring.write_capacity());

    let cmp = b"anthropomorphologicallyanthropomorphologically";
    let end = bytes.len() - (ring.write_capacity() % bytes.len());
    assert_eq!(mem.read(&ring.as_read_slice(10)), &cmp[end..(end + 10)]);
}

#[test]
fn ring_sizes_vs_page_size() {
    let mut did_fail = false;
    let page_size: usize = 4096;
    for pages in (2..10).rev() {
        for offset in [-1i32, 0, 1].iter() {
            let ring_size: usize = ((pages * page_size) as i32 + offset) as usize;
            let (mut buf, mut mem, _) = new_ring(ring_size);
            // a two byte pattern starting with 0x1001
            let start_val = 0x1001usize;
            let word_size = u16::BITS as usize / 8;

            let n = buf.write_capacity() / word_size;
            for val in start_val..start_val + n {
                write_all(&mut buf, &mut mem, &((val & 0xffff) as u16).to_ne_bytes())
                    .expect("failed to write");
            }
            assert_eq!(buf.read_len(), n * word_size);
            for expected in start_val..start_val + n {
                let read = mem.read(&buf.as_read_slice(word_size));
                let expe = &((expected & 0xffff) as u16).to_ne_bytes();
                if read != expe {
                    did_fail = true;
                }
                buf.consume(2);
            }
        }
    }
    assert!(!did_fail);
}

#[test]
fn bounded_ring_fills_and_drains() {
    let (mut buf, mut mem, _) = new_ring(4000);
    let mut i = 1;

    // Fill up the buffer with lines.
    while buf.write_len() > 20 {
        let line = format!("this is test line {}\n", i);
        write_all(&mut buf, &mut mem, line.as_bytes()).unwrap();
        i += 1;
    }

    // No more space is available.
    let line = format!("this is test line {}\n", i);
    assert!(write_all(&mut buf, &mut mem, line.as_bytes()).is_err());

    // Read the first line written.
    assert_eq!(read_line(&mut buf, &mem), "this is test line 1\n");

    // Read the second line written.
    assert_eq!(read_line(&mut buf, &mem), "this is test line 2\n");

    // Now there is enough space to write more.
    let line = format!("this is test line {}\n", i);
    assert!(write_all(&mut buf, &mut mem, line.as_bytes()).is_ok());
}

#[test]
fn full_ring_takes_nothing() {
    let (mut ring, mut mem, _) = new_ring(4096);
    let block = vec![7u8; 4096];
    assert_eq!(write(&mut ring, &mut mem, &block), 4096);
    assert!(ring.is_full());
    assert_eq!(write(&mut ring, &mut mem, b"more"), 0);
    assert_eq!(ring.read_len(), 4096);
    assert_eq!(ring.read_offset() + ring.read_len(), 4096);
    ring.consume(100);
    assert_eq!(ring.read_offset(), 100);
    assert_eq!(write(&mut ring, &mut mem, &block), 100);
    assert_eq!(ring.as_read_slice(usize::MAX), 100..4196);
    assert!(ring.read_offset() + ring.read_len() <= 2 * 4096);
}

#[test]
fn clear_resets_positions() {
    let (mut ring, mut mem, _) = new_ring(4096);
    write_all(&mut ring, &mut mem, b"hello").unwrap();
    ring.consume(2);
    ring.clear();
    assert!(ring.is_empty());
    assert_eq!(ring.read_offset(), 0);
    assert_eq!(ring.write_offset(), 0);
    assert_eq!(ring.write_len(), 4096);
    assert_eq!(&mem.bytes[..5], b"hello");
}

#[test]
fn read_and_consume_takes_at_most_max() {
    let (mut ring, mut mem, _) = new_ring(4096);
    write_all(&mut ring, &mut mem, b"hello world").unwrap();
    let r = ring.read_and_consume(5);
    assert_eq!(mem.read(&r), b"hello");
    let r = ring.read_and_consume(100);
    assert_eq!(mem.read(&r), b" world");
    assert!(ring.is_empty());
}

#[test]
fn overwriting_ring_evicts_the_oldest_lines() {
    let mut mem = Doubled::map(4000);
    let mut buf = InfiniteRing::new(mem.base, 4000);
    let cap = buf.write_capacity();
    assert_eq!(cap, 4000);
    let mut i = 1;
    let mut total = 0;
    while total <= 2 * cap {
        let line = format!("this is line {:0>6}\n", i);
        assert_eq!(line.len(), 20);
        infinite_write_all(&mut buf, &mut mem, line.as_bytes());
        total += line.len();
        i += 1;
    }
    assert_eq!(buf.read_len(), cap);

    // skip over what is left of a line that was overwritten in part
    let partial = (20 - (total - cap) % 20) % 20;
    buf.consume(partial);

    let r = buf.read_from(20);
    let number = (total - 4000) / 20 + 1;
    assert_eq!(
        String::from_utf8(mem.read(&r).to_vec()).unwrap(),
        format!("this is line {:0>6}\n", number)
    );
}

#[test]
fn overwriting_ring_evicts_within_a_line() {
    let (mut buf, mut mem, _) = new_infinite(4000);
    let cap = buf.write_capacity();
    assert_eq!(cap, 4096);
    let mut total = 0;
    for i in 1..=500 {
        let line = format!("this is line {:0>6}\n", i);
        infinite_write_all(&mut buf, &mut mem, line.as_bytes());
        total += line.len();
    }
    assert_eq!(total, 10000);
    assert_eq!(buf.read_len(), cap);

    // the oldest byte is byte 5904 of all that was written: 4 bytes into line 296
    let partial = 20 - (total - cap) % 20;
    assert_eq!(partial, 16);
    buf.consume(partial);
    let r = buf.read_from(20);
    assert_eq!(mem.read(&r), b"this is line 000297\n");
}

#[test]
fn overwriting_ring_keeps_the_tail_of_a_long_write() {
    let (mut ring, mut mem, _) = new_infinite(4096);
    let long: Vec<u8> = (0..10000u32).map(|i| (i % 251) as u8).collect();
    let (tail, dst) = ring.write_all(long.len());
    assert_eq!(tail, 10000 - 4096);
    assert_eq!(dst, 0..4096);
    mem.write(&dst, &long[tail..]);
    assert_eq!(ring.read_len(), 4096);
    assert_eq!(mem.read(&ring.as_read_slice(usize::MAX)), &long[tail..]);
}
