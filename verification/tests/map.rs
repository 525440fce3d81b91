use vmap::as_type::{is_aligned_for, is_sized_for};
use vmap::os::{unix, Answer, Request};
use vmap::{
    Advise, AsType, Error, Extent, Flush, FromPtr, Input, MapMut, Operation, Options, Protect,
    ReadMap, Repr, Size, Span, SpanMut, Window,
};

const TEXT: &str = "A cross-platform library for fast and safe memory-mapped IO in Rust";

/// Stands in for a file of the host.
struct File {
    bytes: Vec<u8>,
    writable: bool,
}

/// Stands in for the pages that the host mapped: where they lie, what they
/// hold, and where in the file they came from.
struct Pages {
    base: usize,
    bytes: Vec<u8>,
    offset: usize,
    shared: bool,
    writable: bool,
}

impl Pages {
    fn of<S: Span>(&self, span: &S) -> &[u8] {
        let at = span.as_ptr() - self.base;
        &self.bytes[at..at + span.len()]
    }

    fn of_mut<S: SpanMut>(&mut self, span: &mut S) -> &mut [u8] {
        assert!(self.writable);
        let at = span.as_mut_ptr() - self.base;
        let len = span.len();
        &mut self.bytes[at..at + len]
    }

    /// Writes what is shared back to the file.
    fn sync(&self, file: &mut File) {
        if self.shared {
            let n = self.bytes.len().min(file.bytes.len() - self.offset);
            file.bytes[self.offset..self.offset + n].copy_from_slice(&self.bytes[..n]);
        }
    }

    /// Answers a request to change the protection as a host does: pages of
    /// a file that was not opened for writing cannot be made writable.
    fn protect(&mut self, request: &Request, file: &File) -> Result<(), Error> {
        match *request {
            Request::Protect { ptr, len, protect } => {
                assert_eq!(ptr % 4096, 0);
                assert_eq!(len % 4096, 0);
                assert!(ptr <= self.base && self.base + self.bytes.len() <= ptr + len);
                if protect == Protect::ReadWrite && self.shared && !file.writable {
                    Err(Error::system(Operation::Protect, 13))
                } else {
                    self.writable = protect != Protect::ReadOnly;
                    Ok(())
                }
            }
            _ => panic!("not a request to protect"),
        }
    }
}

fn unit() -> Size {
    Size::with_size(4096)
}

fn open_file(flags: vmap::OpenFlags, text: &str) -> File {
    assert!(flags.read);
    let mut file = File {
        bytes: text.as_bytes().to_vec(),
        writable: flags.write,
    };
    if flags.truncate && flags.write {
        file.bytes.clear();
    }
    file
}

/// Carries a window out as a host does.
fn map_window<T: FromPtr>(window: &Window, file: Option<&File>) -> (T, Pages) {
    let base = 0x7f12_3456_7000usize;
    let pages = match window.request {
        Request::MapFile { offset, len, protect } => {
            let file = file.expect("a file to map");
            assert_eq!(offset % 4096, 0);
            assert!(offset + len <= file.bytes.len());
            let call = unix::call(window.request);
            let shared = match call {
                unix::Call::Mmap { flags, .. } => flags.shared && !flags.private,
                _ => panic!("not a call to map"),
            };
            Pages {
                base,
                bytes: file.bytes[offset..offset + len].to_vec(),
                offset,
                shared,
                writable: protect == Protect::ReadWrite || protect == Protect::ReadCopy,
            }
        }
        Request::MapAnon { len, protect } => Pages {
            base,
            bytes: vec![0u8; len],
            offset: 0,
            shared: false,
            writable: protect != Protect::ReadOnly,
        },
        _ => panic!("not a request to map"),
    };
    (window.place(base), pages)
}

/// Opens `text` as a file and maps it as the options say.
fn open<T: FromPtr>(opts: &Options<T>, text: &str) -> Result<(T, Pages, File), Error> {
    let mut file = open_file(opts.open_flags(), text);
    let plan = opts.map(file.bytes.len(), &unit());
    if plan.truncate {
        file.bytes.clear();
    }
    if let Some(len) = plan.resize {
        file.bytes.resize(len, 0);
    }
    let window = plan.window?;
    let (map, pages) = map_window(&window, Some(&file));
    Ok((map, pages, file))
}

fn allocate(opts: &Options<MapMut>) -> (MapMut, Pages) {
    let window = opts.allocate(&unit(), &unit());
    map_window(&window, None)
}

#[test]
fn alloc_min() {
    let sz = unit();

    let (mut map, mut pages) = allocate(MapMut::with_options().len(Extent::Min(100)));
    assert_eq!(map.len(), sz.round(100));
    assert_eq!(b"\0\0\0\0\0", &pages.of(&map)[..5]);

    pages.of_mut(&mut map)[..5].clone_from_slice(b"hello");
    assert_eq!(b"hello", &pages.of(&map)[..5]);
    assert!(pages.of(&map)[5..].iter().all(|b| *b == 0));
}

#[test]
fn alloc_exact() {
    let (mut map, mut pages) = allocate(MapMut::with_options().len(5));
    assert_eq!(map.len(), 5);
    assert_eq!(b"\0\0\0\0\0", pages.of(&map));

    pages.of_mut(&mut map)[..5].clone_from_slice(b"hello");
    assert_eq!(b"hello", pages.of(&map));
}

#[test]
fn alloc_offset() {
    // map to the offset of the last 5 bytes of an allocation size, but map 6 bytes
    let off = unit().size(1) - 5;
    let window = MapMut::with_options()
        .offset(off)
        .len(6)
        .allocate(&unit(), &unit());
    assert_eq!(
        window.request,
        Request::MapAnon {
            len: off + 6,
            protect: Protect::ReadWrite
        }
    );
    let (mut map, mut pages): (MapMut, Pages) = map_window(&window, None);

    assert_eq!(map.len(), 6);
    assert_eq!(map.as_ptr(), pages.base + off);
    assert_eq!(b"\0\0\0\0\0\0", pages.of(&map));

    pages.of_mut(&mut map)[..5].clone_from_slice(b"hello");
    assert_eq!(b"hello\0", pages.of(&map));

    // the page after the 5 bytes can be protected on its own
    let page = unit();
    let (ptr, len) = page.bounds(map.as_ptr() + 5, 1);
    assert_eq!(ptr, pages.base + 4096);
    assert_eq!(len, 4096);
}

#[test]
fn read_end() {
    let (map, pages, file): (ReadMap, _, _) =
        open(ReadMap::with_options().offset(29), TEXT).unwrap();
    assert!(map.len() >= 30);
    assert_eq!(file.bytes.len() - 29, map.len());
    assert_eq!(b"fast and safe memory-mapped IO", &pages.of(&map)[..30]);
}

#[test]
fn read_min() {
    let (map, pages, file): (ReadMap, _, _) = open(
        ReadMap::with_options().offset(29).len(Extent::Min(30)),
        TEXT,
    )
    .unwrap();
    assert!(map.len() >= 30);
    assert_eq!(file.bytes.len() - 29, map.len());
    assert_eq!(b"fast and safe memory-mapped IO", &pages.of(&map)[..30]);
}

#[test]
fn read_max() {
    let (map, pages, _): (ReadMap, _, _) = open(
        ReadMap::with_options().offset(29).len(Extent::Max(30)),
        TEXT,
    )
    .unwrap();
    assert!(map.len() == 30);
    assert_eq!(b"fast and safe memory-mapped IO", pages.of(&map));
}

#[test]
fn read_exact() {
    assert_eq!(TEXT.len(), 67);
    let (map, pages, _): (ReadMap, _, _) =
        open(ReadMap::with_options().offset(29).len(30), TEXT).unwrap();
    assert!(map.len() == 30);
    assert_eq!(b"fast and safe memory-mapped IO", pages.of(&map));
}

#[test]
fn copy() {
    let (mut map, mut pages, mut file): (MapMut, _, _) = open(
        MapMut::with_options().offset(29).len(30).copy(),
        TEXT,
    )
    .unwrap();
    assert_eq!(map.len(), 30);
    assert_eq!(b"fast and safe memory-mapped IO", pages.of(&map));

    pages.of_mut(&mut map)[..4].clone_from_slice(b"nice");
    assert_eq!(b"nice and safe memory-mapped IO", pages.of(&map));

    // the change stays with the map
    pages.sync(&mut file);
    assert_eq!(file.bytes, TEXT.as_bytes());
}

#[test]
fn copies_are_isolated() {
    let opts = {
        let mut opts = MapMut::with_options();
        opts.copy();
        opts
    };
    assert!(!opts.open_flags().write);
    assert_eq!(opts.settings().protect, Protect::ReadCopy);
    let (mut map1, mut pages1, mut file): (MapMut, _, _) = open(&opts, TEXT).unwrap();
    let (map2, pages2, _): (MapMut, _, _) = open(&opts, TEXT).unwrap();
    let first = pages1.of(&map1)[0];

    pages1.of_mut(&mut map1)[0] = b'X';
    pages1.sync(&mut file);

    assert_eq!(first, pages2.of(&map2)[0]);
    assert_eq!(first, file.bytes[0]);

    // the host is asked for a private map that can be written to
    match unix::map_file(0, 67, Protect::ReadCopy) {
        unix::Call::Mmap { prot, flags, fd, .. } => {
            assert!(prot.read && prot.write && !prot.execute);
            assert!(flags.private && !flags.shared && !flags.anon && !flags.fixed);
            assert_eq!(fd, unix::Fd::File);
        }
        _ => panic!("not a call to map"),
    }
}

#[test]
fn write_into_mut() {
    let (map, mut pages, mut file): (ReadMap, _, _) = open(
        ReadMap::with_options().write().resize(16),
        "this is a test",
    )
    .unwrap();
    assert_eq!(16, map.len());
    assert_eq!(b"this is a test", &pages.of(&map)[..14]);
    assert_eq!(b"this is a test\0\0", pages.of(&map));

    let outcome = pages.protect(&map.read_write(&unit()), &file);
    let mut map = map.into_map_mut(outcome).expect("a map that can be written to");
    pages.of_mut(&mut map)[..4].clone_from_slice(b"that");
    assert_eq!(b"that is a test", &pages.of(&map)[..14]);
    assert_eq!(b"that is a test\0\0", pages.of(&map));

    let outcome = pages.protect(&map.read_only(&unit()), &file);
    let map = map.into_map(outcome).expect("a map that is only read");
    assert_eq!(b"that is a test", &pages.of(&map)[..14]);
    assert_eq!(b"that is a test\0\0", pages.of(&map));
    assert!(!pages.writable);

    pages.sync(&mut file);
    let text = String::from_utf8(file.bytes.clone()).unwrap();
    let (map, pages, _): (ReadMap, _, _) = open(&ReadMap::with_options(), &text).unwrap();
    assert_eq!(16, map.len());
    assert_eq!(b"that is a test", &pages.of(&map)[..14]);
    assert_eq!(b"that is a test\0\0", pages.of(&map));
}

#[test]
fn into_map_mut_needs_write_access() {
    let (map, mut pages, file): (ReadMap, _, _) =
        open(&ReadMap::with_options(), "this is a test").unwrap();
    let ptr = map.as_ptr();
    let outcome = pages.protect(&map.read_write(&unit()), &file);
    match map.into_map_mut(outcome) {
        Ok(_) => panic!("a file that was opened for reading only"),
        Err((err, map)) => {
            assert_eq!(err.operation(), Operation::Protect);
            assert_eq!(err.raw_os_error(), Some(13));
            // the map is still there
            assert_eq!(map.as_ptr(), ptr);
            assert_eq!(map.len(), 14);
            assert_eq!(b"this is a test", pages.of(&map));
            let err: Error = (err, map).into();
            assert_eq!(err.operation(), Operation::Protect);
        }
    }

    let (map, mut pages, file): (ReadMap, _, _) = open(
        ReadMap::with_options().write(),
        "this is a test",
    )
    .unwrap();
    let outcome = pages.protect(&map.read_write(&unit()), &file);
    let map = map.into_map_mut(outcome).expect("a writable map");
    let outcome = pages.protect(&map.read_only(&unit()), &file);
    assert!(map.into_map(outcome).is_ok());
}

#[test]
fn truncate() {
    let (map, pages, _): (ReadMap, _, _) = open(
        ReadMap::with_options().write().truncate(true).resize(16),
        "this is a test",
    )
    .unwrap();
    assert_eq!(16, map.len());
    assert_eq!(b"\0\0\0\0\0\0\0\0\0\0\0\0\0\0\0\0", pages.of(&map));
}

#[test]
fn volatile() {
    let (mut map, mut pages, mut file): (MapMut, _, _) = open(
        MapMut::with_options()
            .write()
            .truncate(true)
            .create(true)
            .resize(16),
        "",
    )
    .unwrap();
    assert_eq!(16, map.len());
    for offset in [0usize, 8] {
        assert!(vmap::span::assert_capacity::<u64>(offset, map.len()));
        assert!(vmap::span::assert_alignment::<u64>(offset, map.as_ptr()));
    }
    assert!(!vmap::span::assert_capacity::<u64>(9, map.len()));
    assert!(!vmap::span::assert_alignment::<u64>(4, map.as_ptr()));

    assert_eq!(&0u64.to_ne_bytes(), &pages.of(&map)[0..8]);
    assert_eq!(&0u64.to_ne_bytes(), &pages.of(&map)[8..16]);

    pages.of_mut(&mut map)[0..8].copy_from_slice(&0xc3a5c85c97cb3127u64.to_ne_bytes());
    pages.of_mut(&mut map)[8..16].copy_from_slice(&0xb492b66fbe98f273u64.to_ne_bytes());
    pages.sync(&mut file);

    let text = file.bytes.clone();
    assert_eq!(16, text.len());
    assert_eq!(&0xc3a5c85c97cb3127u64.to_ne_bytes(), &text[0..8]);
    assert_eq!(&0xb492b66fbe98f273u64.to_ne_bytes(), &text[8..16]);
}

#[test]
fn unaligned() {
    let (mut map, mut pages, mut file): (MapMut, _, _) = open(
        MapMut::with_options()
            .write()
            .truncate(true)
            .create(true)
            .resize(17),
        "",
    )
    .unwrap();
    assert_eq!(17, map.len());
    for offset in [1usize, 9] {
        assert!(vmap::span::assert_capacity::<u64>(offset, map.len()));
        assert!(!vmap::span::assert_alignment::<u64>(offset, map.as_ptr()));
    }
    assert!(!vmap::span::assert_capacity::<u64>(10, map.len()));

    pages.of_mut(&mut map)[1..9].copy_from_slice(&0xc3a5c85c97cb3127u64.to_ne_bytes());
    pages.of_mut(&mut map)[9..17].copy_from_slice(&0xb492b66fbe98f273u64.to_ne_bytes());
    pages.sync(&mut file);

    assert_eq!(17, file.bytes.len());
    assert_eq!(&0xc3a5c85c97cb3127u64.to_ne_bytes(), &file.bytes[1..9]);
    assert_eq!(&0xb492b66fbe98f273u64.to_ne_bytes(), &file.bytes[9..17]);
}

#[derive(Debug, PartialEq)]
struct Thing {
    a: u32,
    b: u32,
}

fn thing(bytes: &[u8]) -> Thing {
    Thing {
        a: u32::from_ne_bytes(bytes[0..4].try_into().unwrap()),
        b: u32::from_ne_bytes(bytes[4..8].try_into().unwrap()),
    }
}

fn set_thing(bytes: &mut [u8], thing: Thing) {
    bytes[0..4].copy_from_slice(&thing.a.to_ne_bytes());
    bytes[4..8].copy_from_slice(&thing.b.to_ne_bytes());
}

#[test]
fn test_span() {
    let (map, mut pages): (MapMut, Pages) =
        map_window(&MapMut::new(100, &unit(), &unit()), None);
    let base = map.as_ptr() - pages.base;
    let mut first = match AsType::<Thing, MapMut>::new(map) {
        Ok(typed) => typed,
        Err(_) => panic!("failed to cast type"),
    };
    let at = first.type_bytes();
    assert_eq!(at, 0..8);
    assert_eq!(Thing { a: 0, b: 0 }, thing(&pages.bytes[base..][at.clone()]));
    set_thing(
        &mut pages.bytes[base..][at.clone()],
        Thing {
            a: 0b01010101010101010101010101010101,
            b: 0b10101010101010101010101010101010,
        },
    );
    assert_eq!(
        Thing {
            a: 0b01010101010101010101010101010101,
            b: 0b10101010101010101010101010101010,
        },
        thing(&pages.bytes[base..][at.clone()])
    );

    assert_eq!(first.tail_bytes(), 8..4096);
    assert_eq!(first.tail_bytes_mut(), 8..4096);
    let second = first
        .tail_type_mut::<Thing>()
        .expect("failed to cast type");
    let at2 = second.type_bytes();
    let base2 = second.as_ptr() - pages.base;
    assert_eq!(base2, base + 8);
    assert_eq!(Thing { a: 0, b: 0 }, thing(&pages.bytes[base2..][at2.clone()]));
    set_thing(
        &mut pages.bytes[base2..][at2.clone()],
        Thing {
            a: 0b00110011001100110011001100110011,
            b: 0b11001100110011001100110011001100,
        },
    );
    assert_eq!(
        Thing {
            a: 0b00110011001100110011001100110011,
            b: 0b11001100110011001100110011001100,
        },
        thing(&pages.bytes[base2..][at2])
    );

    assert_eq!(
        Thing {
            a: 0b01010101010101010101010101010101,
            b: 0b10101010101010101010101010101010,
        },
        thing(&pages.bytes[base..][at])
    );
}

#[test]
fn as_type_gives_back_what_does_not_fit() {
    // too short
    let small = MapMut::from_ptr(0x1000, 7);
    match AsType::<Thing, MapMut>::new(small) {
        Ok(_) => panic!("seven bytes do not hold eight"),
        Err(back) => assert_eq!((back.as_ptr(), back.len()), (0x1000, 7)),
    }
    // not aligned
    let odd = MapMut::from_ptr(0x1002, 64);
    match AsType::<Thing, MapMut>::new(odd) {
        Ok(_) => panic!("the address is not a multiple of four"),
        Err(back) => assert_eq!((back.as_ptr(), back.len()), (0x1002, 64)),
    }
    let good = MapMut::from_ptr(0x1004, 12);
    let typed = match AsType::<Thing, MapMut>::new(good) {
        Ok(typed) => typed,
        Err(_) => panic!("eight bytes at a multiple of four"),
    };
    assert_eq!(typed.tail_bytes(), 8..12);
    // the tail is too short for another
    assert!(typed.tail_type::<Thing>().is_none());
    assert!(typed.tail_type::<u32>().is_some());
    let back = typed.unwrap();
    assert_eq!((back.as_ptr(), back.len()), (0x1004, 12));
}

#[test]
fn file_window_keeps_the_offset() {
    let opts = {
        let mut opts = ReadMap::with_options();
        opts.offset(5000).len(Extent::Exact(300));
        opts
    };
    let plan = opts.map(6000, &unit());
    assert!(!plan.truncate);
    assert_eq!(plan.resize, None);
    let window = plan.window.unwrap();
    assert_eq!(
        window,
        Window {
            request: Request::MapFile {
                offset: 4096,
                len: 300 + 904,
                protect: Protect::ReadOnly
            },
            skip: 904,
            len: 300,
        }
    );
    let map: ReadMap = window.place(0x10000);
    assert_eq!(map.as_ptr(), 0x10000 + 904);
    assert_eq!(map.len(), 300);
}

#[test]
fn ranges_outside_of_the_file() {
    let text = "this is a test";
    assert!(open::<ReadMap>(ReadMap::with_options().len(4), text).is_ok());
    let err = match open::<ReadMap>(ReadMap::with_options().len(25), text) {
        Ok(_) => panic!("25 bytes of 14"),
        Err(err) => err,
    };
    assert_eq!(err.operation(), Operation::MapFile);
    assert_eq!(err.kind(), std::io::ErrorKind::InvalidInput);
    assert_eq!(err.to_string(), "failed to map file, invalid range");

    let unit = unit();
    let none = |opts: &Options<ReadMap>| opts.map_if(14, &unit).window.is_none();
    assert!(none(ReadMap::with_options().len(25)));
    assert!(none(ReadMap::with_options().len(Extent::Min(100))));
    assert!(none(ReadMap::with_options().offset(15)));
    assert!(none(ReadMap::with_options().offset(10).len(5)));
    assert!(!none(ReadMap::with_options().offset(14)));
    assert!(!none(ReadMap::with_options().offset(10).len(4)));
    assert!(!none(ReadMap::with_options().offset(10).len(Extent::Max(100))));
    assert_eq!(
        ReadMap::with_options()
            .offset(5)
            .len(Extent::Max(100))
            .map_if(14, &unit)
            .window
            .unwrap()
            .len,
        9
    );
    assert_eq!(
        ReadMap::with_options()
            .offset(5)
            .len(Extent::Min(4))
            .map_if(14, &unit)
            .window
            .unwrap()
            .len,
        9
    );
}

#[test]
fn resize_extents() {
    let unit = unit();
    let resized = |opts: &Options<ReadMap>, flen: usize| {
        let plan = opts.map_if(flen, &unit);
        (plan.truncate, plan.resize, plan.window.map(|w| w.len))
    };
    let mut opts = ReadMap::with_options();
    opts.write();
    assert_eq!(resized(&opts, 14), (false, None, Some(14)));
    assert_eq!(resized(opts.resize(7), 14), (false, Some(7), Some(7)));
    assert_eq!(resized(opts.resize(Extent::Min(7)), 4), (false, Some(7), Some(7)));
    assert_eq!(resized(opts.resize(Extent::Min(7)), 14), (false, None, Some(14)));
    assert_eq!(resized(opts.resize(Extent::Max(7)), 4), (false, None, Some(4)));
    assert_eq!(resized(opts.resize(Extent::Max(7)), 14), (false, Some(7), Some(7)));
    assert_eq!(resized(opts.resize(Extent::End), 14), (false, None, Some(14)));
    opts.truncate(true);
    assert_eq!(resized(&opts, 14), (true, None, Some(0)));
    assert_eq!(resized(&opts, 0), (false, None, Some(0)));
    assert_eq!(resized(opts.resize(Extent::Min(7)), 14), (true, Some(7), Some(7)));
    assert_eq!(resized(opts.resize(Extent::Max(7)), 14), (true, None, Some(0)));
    assert_eq!(resized(opts.resize(4), 14), (true, Some(4), Some(4)));
}

#[test]
fn anonymous_extents() {
    let page = Size::with_size(4096);
    let unit = Size::with_size(65536);
    let mut opts = MapMut::with_options();
    let w = opts.allocate(&page, &unit);
    assert_eq!((w.skip, w.len), (0, 65536));
    let w = opts.len(Extent::Min(2000)).allocate(&page, &unit);
    assert_eq!((w.skip, w.len), (0, 65536));
    let w = opts.len(Extent::Max(2000)).allocate(&page, &unit);
    assert_eq!((w.skip, w.len), (0, 2000));
    let w = opts.offset(4096 + 10).len(Extent::Min(65536)).allocate(&page, &unit);
    assert_eq!((w.skip, w.len), (10, 2 * 65536 - 10));
    assert_eq!(
        w.request,
        Request::MapAnon {
            len: 2 * 65536,
            protect: Protect::ReadWrite
        }
    );
    let w = opts.len(Extent::End).allocate(&page, &unit);
    assert_eq!((w.skip, w.len), (10, 65536 - 10));
}

#[test]
fn options_start_read_only_and_whole() {
    let opts: Options<ReadMap> = Options::new();
    let s = opts.settings();
    assert!(s.open.read && !s.open.write && !s.open.create && !s.open.create_new);
    assert!(!s.open.truncate && !s.truncate);
    assert_eq!(s.resize, Extent::End);
    assert_eq!(s.len, Extent::End);
    assert_eq!(s.offset, 0);
    assert_eq!(s.protect, Protect::ReadOnly);
    assert_eq!(Options::<ReadMap>::default().settings(), s);

    let s = MapMut::with_options().settings();
    assert!(s.open.read && s.open.write);
    assert_eq!(s.protect, Protect::ReadWrite);

    let mut opts = MapMut::with_options();
    opts.create_new(true).create(true).truncate(true).offset(3);
    let s = opts.settings();
    assert!(s.open.create && s.open.create_new && s.open.truncate && s.truncate);
    assert_eq!(s.offset, 3);
    assert_eq!(Extent::from(9), Extent::Exact(9));
}

#[test]
fn ranges_of_a_map() {
    let page = Size::with_size(4096);
    let unit = Size::with_size(65536);
    let base = 0x40000 + 100;
    let map = MapMut::from_ptr(base, 10000);
    assert!(map.is_within(&page));

    // whole map: from the page that holds the start to the page after the end
    let whole = (0x40000, 3 * 4096);
    assert_eq!(
        map.flush(&page, Flush::Sync),
        Request::Flush {
            ptr: whole.0,
            len: whole.1,
            mode: Flush::Sync
        }
    );
    assert_eq!(
        map.advise(&page, Advise::Sequential),
        Request::Advise {
            ptr: whole.0,
            len: whole.1,
            advise: Advise::Sequential
        }
    );
    assert_eq!(
        map.lock(&page),
        Request::Lock {
            ptr: whole.0,
            len: whole.1
        }
    );
    assert_eq!(
        map.unlock(&page),
        Request::Unlock {
            ptr: whole.0,
            len: whole.1
        }
    );
    // giving the map back goes by units of allocation
    assert_eq!(
        map.unmap(&unit),
        Some(Request::Unmap {
            ptr: 0x40000,
            len: 65536
        })
    );
    assert_eq!(MapMut::from_ptr(base, 0).unmap(&unit), None);

    // a range inside: bytes 5000..5010 of the map lie in the second page
    let inside = (0x41000, 4096);
    assert_eq!(
        map.flush_range(&page, 5000, 10, Flush::Async).unwrap(),
        Request::Flush {
            ptr: inside.0,
            len: inside.1,
            mode: Flush::Async
        }
    );
    assert_eq!(
        map.advise_range(&page, 5000, 10, Advise::WillNeed).unwrap(),
        Request::Advise {
            ptr: inside.0,
            len: inside.1,
            advise: Advise::WillNeed
        }
    );
    assert_eq!(
        map.lock_range(&page, 5000, 10).unwrap(),
        Request::Lock {
            ptr: inside.0,
            len: inside.1
        }
    );
    assert_eq!(
        map.unlock_range(&page, 5000, 10).unwrap(),
        Request::Unlock {
            ptr: inside.0,
            len: inside.1
        }
    );
    // up to the last byte
    assert!(map.flush_range(&page, 0, 10000, Flush::Sync).is_ok());
    assert!(map.lock_range(&page, 10000, 0).is_ok());

    // one byte too far, and lengths that wrap around
    for (off, len) in [(0, 10001), (9999, 2), (10001, 0), (usize::MAX, 2), (2, usize::MAX)] {
        let errors = [
            (map.flush_range(&page, off, len, Flush::Sync), Operation::Flush),
            (map.advise_range(&page, off, len, Advise::Normal), Operation::Advise),
            (map.lock_range(&page, off, len), Operation::Lock),
            (map.unlock_range(&page, off, len), Operation::Unlock),
        ];
        for (result, op) in errors {
            let err = result.unwrap_err();
            assert_eq!(err.operation(), op);
            assert!(matches!(err.detail(), Repr::Input(Input::InvalidRange)));
            assert_eq!(err.raw_os_error(), None);
        }
    }

    // a map that is only read gives the same calls
    let outcome = Ok(());
    let map = map.into_map(outcome).unwrap();
    assert_eq!(
        map.advise(&page, Advise::Random),
        Request::Advise {
            ptr: whole.0,
            len: whole.1,
            advise: Advise::Random
        }
    );
    assert_eq!(
        map.lock_range(&page, 5000, 10).unwrap(),
        Request::Lock {
            ptr: inside.0,
            len: inside.1
        }
    );
    assert_eq!(
        map.lock(&page),
        Request::Lock {
            ptr: whole.0,
            len: whole.1
        }
    );
    assert_eq!(
        map.unlock(&page),
        Request::Unlock {
            ptr: whole.0,
            len: whole.1
        }
    );
    assert!(map.advise_range(&page, 9999, 2, Advise::Normal).is_err());
    assert!(map.unlock_range(&page, 9999, 2).is_err());
    assert!(map.unlock_range(&page, 9999, 1).is_ok());
    assert_eq!(
        map.unmap(&unit),
        Some(Request::Unmap {
            ptr: 0x40000,
            len: 65536
        })
    );
    assert_eq!(
        map.read_write(&page),
        Request::Protect {
            ptr: whole.0,
            len: whole.1,
            protect: Protect::ReadWrite
        }
    );
    assert_eq!(vmap::os::result(Operation::Flush, Answer::Done(0)).unwrap(), 0);
}

#[test]
fn types_need_size_and_alignment() {
    assert!(is_sized_for::<u64>(8));
    assert!(is_sized_for::<u64>(9));
    assert!(!is_sized_for::<u64>(7));
    assert!(is_sized_for::<()>(0));
    assert!(is_sized_for::<Thing>(8));
    assert!(!is_sized_for::<Thing>(7));
    assert!(is_aligned_for::<u64>(0x1000));
    assert!(is_aligned_for::<u64>(0x1008));
    assert!(!is_aligned_for::<u64>(0x1004));
    assert!(is_aligned_for::<u32>(0x1004));
    assert!(is_aligned_for::<u8>(0x1001));
    assert!(!is_aligned_for::<u16>(usize::MAX));
}

#[test]
fn allocations_must_fit_the_address_space() {
    let page = Size::with_size(4096);
    let unit = Size::with_size(65536);
    let mut opts = MapMut::with_options();
    assert!(opts.can_allocate(&page, &unit));
    assert!(opts.len(Extent::Min(usize::MAX - 65535)).can_allocate(&page, &unit));
    assert!(!opts.len(Extent::Min(usize::MAX - 65534)).can_allocate(&page, &unit));
    assert!(opts.len(Extent::Exact(usize::MAX)).can_allocate(&page, &unit));
    assert!(opts.len(Extent::Max(usize::MAX)).can_allocate(&page, &unit));
    opts.offset(4097);
    assert!(!opts.len(Extent::Max(usize::MAX)).can_allocate(&page, &unit));
    assert!(opts.len(Extent::Max(usize::MAX - 1)).can_allocate(&page, &unit));
    assert!(opts.len(Extent::End).can_allocate(&page, &unit));
    assert!(opts.len(Extent::Min(usize::MAX - 65536)).can_allocate(&page, &unit));
    assert!(!opts.len(Extent::Min(usize::MAX - 65535)).can_allocate(&page, &unit));

    // the pages of a map at the end of the address space
    let page = Size::with_size(4096);
    assert!(MapMut::from_ptr(usize::MAX - 4095 - 100, 100).is_within(&page));
    assert!(!MapMut::from_ptr(usize::MAX - 4095 - 100, 101).is_within(&page));
    assert!(ReadMap::from_ptr(usize::MAX - 4095 - 100, 100).is_within(&page));
    assert!(!ReadMap::from_ptr(usize::MAX - 4095 - 100, 101).is_within(&page));
    assert!(ReadMap::from_ptr(0, 0).is_empty());
}
