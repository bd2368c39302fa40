use readwriteseekfs::{
    block_count, errmap, read_up_to, write_up_to, FailureKind, FileKind, MemStream, ReadSeekFs,
    ReadWriteSeekFs, SeekRead, SeekWrite, Timestamp, CREATE_TIME_SEC, TTL_SEC,
};

const HELLO: &[u8] = b"Hello, world\n";

fn writable(len: usize) -> ReadWriteSeekFs<MemStream> {
    ReadWriteSeekFs::new(MemStream::new(vec![0; len]), 1024).unwrap()
}

#[test]
fn example_hello_round_trip() {
    let mut fs = writable(65536);
    assert_eq!(fs.write(0, HELLO), Ok(13));
    assert_eq!(fs.read(0, 13).unwrap(), HELLO.to_vec());
}

#[test]
fn example_read_past_end_is_empty() {
    let mut fs = writable(65536);
    assert_eq!(fs.read(65536, 100), Ok(vec![]));
    assert_eq!(fs.read(70000, 13), Ok(vec![]));
}

#[test]
fn read_near_end_is_cut_short() {
    let mut fs = writable(65536);
    assert_eq!(fs.write(65530, HELLO), Ok(6));
    assert_eq!(fs.read(65530, 100).unwrap(), HELLO[..6].to_vec());
}

#[test]
fn read_returns_window_of_content() {
    let data: Vec<u8> = (0u8..10).collect();
    let mut fs = ReadSeekFs::new(MemStream::new(data), 4).unwrap();
    assert_eq!(fs.read(3, 4), Ok(vec![3, 4, 5, 6]));
    assert_eq!(fs.read(8, 4), Ok(vec![8, 9]));
    assert_eq!(fs.read(0, 0), Ok(vec![]));
    assert_eq!(fs.seek_and_read(2, 2), Ok(vec![2, 3]));
}

#[test]
fn read_negative_offset_is_invalid() {
    let mut fs = ReadSeekFs::new(MemStream::new(vec![1, 2, 3]), 4).unwrap();
    assert_eq!(fs.read(-1, 3), Err(22));
    assert_eq!(fs.seek_and_read(-5, 3), Err(FailureKind::InvalidInput));
    assert_eq!(fs.read(0, 3), Ok(vec![1, 2, 3]));
}

#[test]
fn write_negative_offset_is_invalid() {
    let mut fs = writable(8);
    assert_eq!(fs.write(-1, HELLO), Err(22));
    assert_eq!(fs.seek_and_write(-1, HELLO), Err(FailureKind::InvalidInput));
    assert_eq!(fs.read(0, 8), Ok(vec![0; 8]));
}

#[test]
fn read_only_refuses_writes() {
    let mut fs = ReadSeekFs::new(MemStream::new(vec![7; 4]), 4).unwrap();
    assert_eq!(fs.write(0, HELLO), Err(30));
    assert_eq!(fs.setattr(), Err(30));
    assert_eq!(fs.read(0, 4), Ok(vec![7; 4]));
}

#[test]
fn writable_setattr_is_accepted_unchanged() {
    let fs = writable(2048);
    let (ttl, attr) = fs.setattr().unwrap();
    assert_eq!(ttl, Timestamp { sec: TTL_SEC, nsec: 0 });
    assert_eq!(attr, fs.getattr().1);
    assert_eq!(attr.size, 2048);
}

#[test]
fn attributes_do_not_follow_writes() {
    let mut fs = writable(16);
    let before = fs.getattr();
    assert_eq!(fs.write(4, HELLO), Ok(12));
    assert_eq!(fs.flush(), Ok(()));
    assert_eq!(fs.getattr(), before);
    assert_eq!(fs.getattr().1.size, 16);
}

#[test]
fn attributes_are_synthesised() {
    let fs = ReadSeekFs::new(MemStream::new(vec![0; 3000]), 1024).unwrap();
    let (ttl, attr, generation) = fs.lookup();
    assert_eq!(ttl, Timestamp { sec: 9999, nsec: 0 });
    assert_eq!(generation, 0);
    assert_eq!(attr.ino, 1);
    assert_eq!(attr.size, 3000);
    assert_eq!(attr.blocks, 3);
    let t = Timestamp { sec: CREATE_TIME_SEC, nsec: 0 };
    assert_eq!(t.sec, 1534631479);
    assert_eq!((attr.atime, attr.mtime, attr.ctime, attr.crtime), (t, t, t, t));
    assert_eq!(attr.kind, FileKind::RegularFile);
    assert_eq!(attr.perm, 0o644);
    assert_eq!((attr.nlink, attr.uid, attr.gid, attr.rdev, attr.flags), (1, 0, 0, 0, 0));
    assert_eq!(fs.getattr(), (ttl, attr));
}

#[test]
fn block_count_is_ceiling() {
    assert_eq!(block_count(1, 1024), 1);
    assert_eq!(block_count(1024, 1024), 1);
    assert_eq!(block_count(1025, 1024), 2);
    assert_eq!(block_count(65536, 1024), 64);
    assert_eq!(block_count(65537, 1024), 65);
    assert_eq!(block_count(u64::MAX, 1), u64::MAX);
}

#[test]
fn block_count_of_empty_stream_is_one() {
    assert_eq!(block_count(0, 1024), 1);
    let fs = ReadSeekFs::new(MemStream::new(vec![]), 512).unwrap();
    assert_eq!(fs.getattr().1.blocks, 1);
    assert_eq!(fs.getattr().1.size, 0);
}

#[test]
fn errmap_table() {
    let cases = [
        (FailureKind::NotFound, 2),
        (FailureKind::PermissionDenied, 13),
        (FailureKind::ConnectionRefused, 111),
        (FailureKind::ConnectionReset, 111),
        (FailureKind::ConnectionAborted, 103),
        (FailureKind::NotConnected, 107),
        (FailureKind::AddrInUse, 98),
        (FailureKind::AddrNotAvailable, 99),
        (FailureKind::BrokenPipe, 32),
        (FailureKind::AlreadyExists, 17),
        (FailureKind::WouldBlock, 11),
        (FailureKind::InvalidInput, 22),
        (FailureKind::InvalidData, 22),
        (FailureKind::TimedOut, 110),
        (FailureKind::WriteZero, 22),
        (FailureKind::UnexpectedEof, 22),
        (FailureKind::Interrupted, 22),
        (FailureKind::Other, 22),
    ];
    for (kind, code) in cases {
        assert_eq!(errmap(kind), code, "{:?}", kind);
    }
}

#[test]
fn resilient_read_stops_when_no_bytes_are_left() {
    let mut s = MemStream::new(vec![5, 6, 7]);
    assert_eq!(s.seek_to(1), Ok(1));
    assert_eq!(read_up_to(&mut s, 10), Ok(vec![6, 7]));
    assert_eq!(read_up_to(&mut s, 10), Ok(vec![]));
}

#[test]
fn resilient_write_stops_when_stream_is_full() {
    let mut s = MemStream::new(vec![0; 4]);
    assert_eq!(s.seek_to(2), Ok(2));
    assert_eq!(write_up_to(&mut s, &[1, 2, 3]), Ok(2));
    assert_eq!(write_up_to(&mut s, &[9]), Ok(0));
    assert_eq!(s.flush(), Ok(()));
    assert_eq!(s.into_inner(), vec![0, 0, 1, 2]);
}

#[test]
fn mem_stream_seek_end_gives_length() {
    let mut s = MemStream::new(vec![1; 37]);
    assert_eq!(s.seek_end(), Ok(37));
    assert_eq!(s.read_some(5), Ok(vec![]));
    assert_eq!(s.seek_to(35), Ok(35));
    assert_eq!(s.read_some(5), Ok(vec![1, 1]));
    assert_eq!(s.write_some(&[4, 4, 4]), Ok(0));
}

#[test]
fn resilient_helpers_accept_empty_requests() {
    let mut s = MemStream::new(vec![1, 2, 3]);
    assert_eq!(read_up_to(&mut s, 0), Ok(vec![]));
    assert_eq!(write_up_to(&mut s, &[]), Ok(0));
    assert_eq!(s.into_inner(), vec![1, 2, 3]);
}

#[test]
fn resilient_read_of_short_stream() {
    let mut s = MemStream::new(vec![1, 2, 3]);
    assert_eq!(read_up_to(&mut s, 5), Ok(vec![1, 2, 3]));
}

#[test]
fn resilient_write_into_small_stream_takes_what_fits() {
    let mut s = MemStream::new(vec![0; 3]);
    assert_eq!(write_up_to(&mut s, b"hello"), Ok(3));
    assert_eq!(s.into_inner(), b"hel".to_vec());
}

#[test]
fn constructor_block_counts() {
    let fs = ReadSeekFs::new(MemStream::new(vec![0; 10]), 4).unwrap();
    assert_eq!((fs.getattr().1.size, fs.getattr().1.blocks), (10, 3));
    let fs = ReadWriteSeekFs::new(MemStream::new(vec![0; 65536]), 4096).unwrap();
    assert_eq!((fs.getattr().1.size, fs.getattr().1.blocks), (65536, 16));
}
