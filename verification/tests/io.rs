use vmap::io::{InfiniteRing, Ring, SeqRead, SeqWrite};
use vmap::{ByteRange, Size};

/// Stands in for the host: a doubled range of `2 * half` bytes, in which a
/// byte written at one offset shows at the offset `half` bytes away too.
struct Doubled {
    base: usize,
    half: usize,
    bytes: Vec<u8>,
}

impl Doubled {
    fn map(half: usize) -> Doubled {
        Doubled {
            base: 0x7e00_0000_0000,
            half,
            bytes: vec![0u8; 2 * half],
        }
    }

    fn write(&mut self, at: &ByteRange, src: &[u8]) {
        assert_eq!(at.end - at.start, src.len());
        assert!(at.end <= 2 * self.half);
        for (i, b) in src.iter().enumerate() {
            let off = (at.start + i) % self.half;
            self.bytes[off] = *b;
            self.bytes[off + self.half] = *b;
        }
    }

    fn read(&self, at: &ByteRange) -> &[u8] {
        &self.bytes[at.start..at.end]
    }
}

/// Writes all of `buf` as `std::io::Write::write_all` does: it fails once a
/// write takes no byte.
fn write_all(ring: &mut Ring, mem: &mut Doubled, mut buf: &[u8]) -> Result<(), &'static str> {
    while !buf.is_empty() {
        let dst = ring.write_into(buf.len());
        let n = dst.end - dst.start;
        if n == 0 {
            return Err("failed to write whole buffer");
        }
        mem.write(&dst, &buf[..n]);
        buf = &buf[n..];
    }
    Ok(())
}

fn infinite_write_all(ring: &mut InfiniteRing, mem: &mut Doubled, buf: &[u8]) {
    let (tail, dst) = ring.write_all(buf.len());
    mem.write(&dst, &buf[tail..]);
}

fn new_ring(hint: usize) -> (Ring, Doubled, Size) {
    let sz = Size::with_size(4096);
    let len = Ring::size_for(hint, &sz);
    let mem = Doubled::map(len);
    (Ring::new(mem.base, len), mem, sz)
}

fn new_infinite(hint: usize) -> (InfiniteRing, Doubled, Size) {
    let sz = Size::with_size(4096);
    let len = InfiniteRing::size_for(hint, &sz);
    let mem = Doubled::map(len);
    (InfiniteRing::new(mem.base, len), mem, sz)
}

fn size_of_a_ring() {
    let (mut buf, mut mem, sz) = new_ring(1000);
    assert_eq!(buf.write_capacity(), sz.size(1));
    assert_eq!(buf.read_len(), 0);
    assert_eq!(buf.write_len(), sz.size(1));

    let bytes = String::from("test").into_bytes();
    write_all(&mut buf, &mut mem, &bytes).expect("failed to write all bytes");
    assert_eq!(buf.write_capacity(), sz.size(1));
    assert_eq!(buf.read_len(), 4);
    assert_eq!(buf.write_len(), sz.size(1) - 4);
}

fn wrap_of_a_ring() {
    let (mut buf, mut mem, _) = new_ring(1000);
    // pick some bytes that won't fit evenly in the capacity
    let bytes = b"anthropomorphologically";
    let n = buf.write_capacity() / bytes.len();
    for _ in 0..n {
        write_all(&mut buf, &mut mem, bytes).expect("failed to write");
    }
    assert_eq!(buf.read_len(), n * bytes.len());
    buf.consume((n - 1) * bytes.len());
    assert_eq!(buf.read_len(), bytes.len());
    write_all(&mut buf, &mut mem, bytes).expect("failed to write");
    assert_eq!(buf.read_len(), 2 * bytes.len());

    let cmp = b"anthropomorphologicallyanthropomorphologically";
    assert_eq!(mem.read(&buf.as_read_slice(cmp.len())), &cmp[..]);
}

fn overwrite_of_a_ring() {
    let (mut ring, mut mem, _) = new_infinite(1000);
    // pick some bytes that won't fit evenly in the capacity
    let bytes = b"anthropomorphologically";
    let n = 2 * ring.write_capacity() / bytes.len() + 1;
    for _ in 0..n {
        infinite_write_all(&mut ring, &mut mem, bytes);
    }
    assert_eq!(ring.read_len(), ring.write_capacity());

    let cmp = b"anthropomorphologicallyanthropomorphologically";
    let end = bytes.len() - (ring.write_capacity() % bytes.len());
    assert_eq!(mem.read(&ring.as_read_slice(10)), &cmp[end..(end + 10)]);
}

#[test]
fn buf_size() {
    size_of_a_ring();
}

#[test]
fn buf_wrap() {
    wrap_of_a_ring();
}

#[test]
fn buf_overwrite() {
    overwrite_of_a_ring();
}

#[test]
fn io_size() {
    size_of_a_ring();
}

#[test]
fn io_wrap() {
    wrap_of_a_ring();
}

#[test]
fn io_overwrite() {
    overwrite_of_a_ring();
}

#[test]
fn mod_size() {
    size_of_a_ring();
}

#[test]
fn mod_wrap() {
    wrap_of_a_ring();
}

#[test]
fn mod_overwrite() {
    overwrite_of_a_ring();
}

#[test]
fn overwriting_ring_positions() {
    let (mut ring, _, _) = new_infinite(4096);
    assert!(ring.is_empty());
    assert!(!ring.is_full());
    assert_eq!(ring.write_len(), 4096);
    assert_eq!(ring.as_read_ptr(), 0x7e00_0000_0000);
    assert_eq!(ring.as_write_ptr(), 0x7e00_0000_0000);
    ring.feed(3000);
    assert_eq!((ring.read_offset(), ring.read_len()), (0, 3000));
    assert_eq!((ring.write_offset(), ring.write_len()), (3000, 4096));
    assert_eq!(ring.as_write_slice(usize::MAX), 3000..7096);
    ring.feed(3000);
    // 1904 bytes were evicted
    assert_eq!((ring.read_offset(), ring.read_len()), (1904, 4096));
    assert_eq!(ring.write_offset(), 1904);
    assert_eq!(ring.fill_buf(), 1904..6000);
    ring.consume(96);
    assert_eq!((ring.read_offset(), ring.read_len()), (2000, 4000));
    // a feed of more than the capacity counts as one of the capacity
    ring.feed(10000);
    assert_eq!(ring.written(), 6000 + 4096);
    assert_eq!(ring.read_len(), 4096);
    assert_eq!(ring.read_offset(), ring.write_offset());
    ring.consume(usize::MAX);
    assert!(ring.is_empty());
    assert_eq!(ring.read_offset(), ring.write_offset());
    assert_eq!(ring.write_into(10), 1904..1914);
    assert_eq!(ring.read_from(4), 1904..1908);
    assert_eq!(ring.read_len(), 6);
}

#[test]
fn bounded_ring_positions() {
    let (mut ring, _, _) = new_ring(8000);
    assert_eq!(ring.write_capacity(), 8192);
    assert_eq!(ring.as_read_ptr(), 0x7e00_0000_0000);
    assert_eq!(ring.as_write_ptr(), 0x7e00_0000_0000);
    ring.feed(8000);
    ring.consume(7000);
    assert_eq!((ring.read_offset(), ring.read_len()), (7000, 1000));
    assert_eq!((ring.write_offset(), ring.write_len()), (8000, 7192));
    // the stretch to write runs over the end of the buffer
    assert_eq!(ring.as_write_slice(usize::MAX), 8000..15192);
    assert_eq!(ring.as_write_slice(100), 8000..8100);
    // a feed of more than fits takes what fits
    ring.feed(usize::MAX);
    assert!(ring.is_full());
    assert_eq!(ring.written(), 8000 + 7192);
    assert_eq!(ring.fill_buf(), 7000..15192);
    assert_eq!(ring.read_from(2000), 7000..9000);
    assert_eq!(ring.read_offset(), 9000 - 8192);
    ring.consume(usize::MAX);
    assert!(ring.is_empty());
    assert_eq!(ring.read_offset(), ring.write_offset());
}

#[test]
fn counts_of_written_bytes_have_an_end() {
    let (ring, _, _) = new_ring(4096);
    assert!(ring.has_room(0));
    assert!(ring.has_room(usize::MAX));
    let (ring, _, _) = new_infinite(4096);
    assert!(ring.has_room(usize::MAX));
    assert_eq!(vmap::io::shorter(3, 4), 3);
    assert_eq!(vmap::io::shorter(4, 3), 3);
    assert_eq!(vmap::io::shorter(0, usize::MAX), 0);
    assert_eq!(vmap::io::shorter(7, 7), 7);
}
