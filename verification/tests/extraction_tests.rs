use schnauzer::Cursor;
use schnauzer::Error;
use schnauzer::LcLinkEditData;

/// A file of `len` bytes whose byte at index `i` is a known pattern.
fn patterned_file(len: usize) -> Vec<u8> {
    let mut v = Vec::with_capacity(len);
    for i in 0..len {
        v.push((i % 251) as u8);
    }
    v
}

fn extract(object_file_offset: u64, dataoff: u32, datasize: u32, file_len: usize) -> Result<Vec<u8>, Error> {
    let cmd = LcLinkEditData { object_file_offset, dataoff, datasize };
    let mut cursor = Cursor::new(patterned_file(file_len));
    let mut sink = Vec::new();
    cmd.read_data_to(&mut cursor, &mut sink).map(|_| sink)
}

fn check_pattern(blob: &[u8], start: usize) {
    for (i, &b) in blob.iter().enumerate() {
        assert_eq!(b, ((start + i) % 251) as u8);
    }
}

#[test]
fn extract_zero_bytes() {
    let blob = extract(3, 5, 0, 64).unwrap();
    assert_eq!(blob.len(), 0);
}

#[test]
fn extract_one_byte() {
    let blob = extract(10, 7, 1, 64).unwrap();
    assert_eq!(blob, vec![(17 % 251) as u8]);
}

#[test]
fn extract_exactly_one_buffer() {
    // 4096 bytes: one full intermediate buffer, no remainder.
    let blob = extract(100, 28, 4096, 8192).unwrap();
    assert_eq!(blob.len(), 4096);
    check_pattern(&blob, 128);
}

#[test]
fn extract_several_buffers_plus_remainder() {
    let size = 4096 * 2 + 7;
    let blob = extract(0, 32, size as u32, 16384).unwrap();
    assert_eq!(blob.len(), size);
    check_pattern(&blob, 32);
}

#[test]
fn extract_up_to_exact_end_of_file() {
    let blob = extract(0, 60, 4, 64).unwrap();
    assert_eq!(blob.len(), 4);
    check_pattern(&blob, 60);
}

#[test]
fn truncated_file_fails_rather_than_shortens() {
    // The declared datasize reaches one byte past end-of-file: the
    // extraction must fail, not succeed with fewer bytes.
    let res = extract(0, 60, 5, 64);
    assert_eq!(
        res,
        Err(Error::ReadOutOfBounds { offset: 60, count: 5, available: 64 })
    );
}

#[test]
fn data_offset_past_end_of_file_fails() {
    let res = extract(64, 10, 1, 64);
    assert_eq!(
        res,
        Err(Error::ReadOutOfBounds { offset: 74, count: 1, available: 64 })
    );
}

#[test]
fn extraction_appends_to_existing_sink() {
    let cmd = LcLinkEditData { object_file_offset: 0, dataoff: 2, datasize: 3 };
    let mut cursor = Cursor::new(patterned_file(16));
    let mut sink = vec![0xAA, 0xBB];
    cmd.read_data_to(&mut cursor, &mut sink).unwrap();
    assert_eq!(sink, vec![0xAA, 0xBB, 2, 3, 4]);
}

#[test]
fn failed_extraction_leaves_sink_unchanged() {
    let cmd = LcLinkEditData { object_file_offset: 0, dataoff: 100, datasize: 10 };
    let mut cursor = Cursor::new(patterned_file(16));
    let mut sink = vec![1, 2, 3];
    let res = cmd.read_data_to(&mut cursor, &mut sink);
    assert!(res.is_err());
    assert_eq!(sink, vec![1, 2, 3]);
}

#[test]
fn extraction_is_repeatable() {
    // The command may be asked for its blob many times over.
    let cmd = LcLinkEditData { object_file_offset: 4, dataoff: 4, datasize: 6 };
    let mut cursor = Cursor::new(patterned_file(32));
    let mut first = Vec::new();
    let mut second = Vec::new();
    cmd.read_data_to(&mut cursor, &mut first).unwrap();
    cmd.read_data_to(&mut cursor, &mut second).unwrap();
    assert_eq!(first, second);
    check_pattern(&first, 8);
}
