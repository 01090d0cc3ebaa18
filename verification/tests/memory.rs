//! Tests of the observed-memory model: segment bookkeeping, typed reads,
//! failure reporting and C-string reads.

use auto_splitter::Error;
use auto_splitter::Process;

#[test]
fn empty_process_fails_every_read() {
    let p = Process::new();
    assert_eq!(p.read_u8(0), Err(Error::FailedRead(0, 1)));
    assert_eq!(p.read_u32(0x1000), Err(Error::FailedRead(0x1000, 4)));
    assert_eq!(p.read_u64(0x1000), Err(Error::FailedRead(0x1000, 8)));
}

#[test]
fn add_segment_rejects_overlap() {
    let mut p = Process::new();
    assert!(p.add_segment(0x100, vec![1, 2, 3, 4]));
    // identical range
    assert!(!p.add_segment(0x100, vec![9, 9, 9, 9]));
    // partial overlap at the end
    assert!(!p.add_segment(0x103, vec![7, 7]));
    // adjacent is fine
    assert!(p.add_segment(0x104, vec![5, 6]));
    // overlap from below
    assert!(!p.add_segment(0xFF, vec![0, 0]));
}

#[test]
fn add_segment_rejects_address_space_overflow() {
    let mut p = Process::new();
    assert!(!p.add_segment(u64::MAX - 1, vec![1, 2, 3]));
    assert!(p.add_segment(u64::MAX - 4, vec![1, 2, 3]));
}

#[test]
fn read_little_endian_values() {
    let mut p = Process::new();
    assert!(p.add_segment(0x2000, vec![0x78, 0x56, 0x34, 0x12, 0xEF, 0xCD, 0xAB, 0x89]));
    assert_eq!(p.read_u32(0x2000), Ok(0x12345678));
    assert_eq!(p.read_u32(0x2004), Ok(0x89ABCDEF));
    assert_eq!(p.read_u64(0x2000), Ok(0x89ABCDEF_12345678));
    assert_eq!(p.read_u8(0x2003), Ok(0x12));
}

#[test]
fn partial_reads_fail_whole() {
    let mut p = Process::new();
    assert!(p.add_segment(0x2000, vec![1, 2, 3, 4]));
    // last byte missing: the whole read fails and names the requested range
    assert_eq!(p.read_u64(0x2000), Err(Error::FailedRead(0x2000, 8)));
    // a read spanning two adjacent segments succeeds byte-wise
    assert!(p.add_segment(0x2004, vec![5, 6, 7, 8]));
    assert_eq!(p.read_u64(0x2000), Ok(0x08070605_04030201));
}

#[test]
fn read_bytes_and_read_into_buf() {
    let mut p = Process::new();
    assert!(p.add_segment(0x3000, vec![10, 20, 30, 40, 50]));
    assert_eq!(p.read_bytes(0x3001, 3), Ok(vec![20, 30, 40]));
    assert_eq!(p.read_bytes(0x3000, 0), Ok(vec![]));
    let mut buf = vec![0u8; 4];
    assert!(p.read_into_buf(0x3000, &mut buf).is_ok());
    assert_eq!(buf, vec![10, 20, 30, 40]);
    let mut buf2 = vec![0u8; 8];
    assert_eq!(
        p.read_into_buf(0x3000, &mut buf2),
        Err(Error::FailedRead(0x3000, 8))
    );
    assert_eq!(buf2, vec![0u8; 8]);
}

#[test]
fn read_cstr_stops_at_nul() {
    let mut p = Process::new();
    let mut data = b"SaveData".to_vec();
    data.push(0);
    data.extend_from_slice(b"junk");
    assert!(p.add_segment(0x4000, data));
    assert_eq!(p.read_cstr(0x4000), Ok(b"SaveData".to_vec()));
    assert_eq!(p.read_cstr(0x4004), Ok(b"Data".to_vec()));
    // running off the segment is a failed read at the first missing byte
    assert_eq!(p.read_cstr(0x4009), Err(Error::FailedRead(0x400D, 1)));
}

#[test]
fn read_cstr_unterminated_is_decode_error() {
    let mut p = Process::new();
    assert!(p.add_segment(0x5000, vec![b'x'; 400]));
    assert_eq!(p.read_cstr(0x5000), Err(Error::DecodeError));
}
