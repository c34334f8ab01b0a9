use schnauzer::Cursor;
use schnauzer::Endian;
use schnauzer::Error;
use schnauzer::LcVariant;
use schnauzer::LoadCommand;

fn push_u32(v: &mut Vec<u8>, x: u32, e: Endian) {
    match e {
        Endian::Big => {
            v.push((x >> 24) as u8);
            v.push((x >> 16) as u8);
            v.push((x >> 8) as u8);
            v.push(x as u8);
        }
        Endian::Little => {
            v.push(x as u8);
            v.push((x >> 8) as u8);
            v.push((x >> 16) as u8);
            v.push((x >> 24) as u8);
        }
    }
}

/// Appends a command with the given prefix and body words, then pads with
/// junk up to `cmdsize` bytes in all.
fn push_command(v: &mut Vec<u8>, cmd: u32, cmdsize: u32, body: &[u32], e: Endian) {
    let start = v.len();
    push_u32(v, cmd, e);
    push_u32(v, cmdsize, e);
    for &w in body {
        push_u32(v, w, e);
    }
    while v.len() < start + cmdsize as usize {
        v.push(0x5A);
    }
}

#[test]
fn scan_visits_each_command_at_summed_offsets() {
    // Three commands with different cmdsize values, trailing padding
    // included: the scan must visit exactly three, each standing at the
    // base offset plus the sum of all prior cmdsize values.
    let e = Endian::Big;
    let base: u64 = 10;
    let mut data = vec![0xEE; base as usize];
    push_command(&mut data, 0x99, 8, &[], e);
    push_command(&mut data, 0x77, 24, &[], e);
    push_command(&mut data, 0x88, 12, &[], e);
    let mut cursor = Cursor::new(data);
    let table = LoadCommand::parse_all(&mut cursor, base, 3, 0, e).unwrap();
    assert_eq!(table.len(), 3);
    assert_eq!(table[0].base_offset, base);
    assert_eq!(table[1].base_offset, base + 8);
    assert_eq!(table[2].base_offset, base + 8 + 24);
    assert_eq!(table[0].cmd, 0x99);
    assert_eq!(table[1].cmd, 0x77);
    assert_eq!(table[2].cmd, 0x88);
    assert_eq!(table[0].cmdsize, 8);
    assert_eq!(table[1].cmdsize, 24);
    assert_eq!(table[2].cmdsize, 12);
}

#[test]
fn unknown_command_among_known_ones_is_preserved() {
    // A table of three commands whose middle tag no decoder recognizes:
    // the scan still yields three entries, keeps the unknown one
    // opaquely, and continues past it using its cmdsize.
    let e = Endian::Little;
    let mut data = Vec::new();
    push_command(&mut data, 0x4, 16, &[6, 68], e);
    push_command(&mut data, 0x7F, 12, &[0xDEADBEEF], e);
    push_command(&mut data, 0x1D, 16, &[0x400, 0x20], e);
    let mut cursor = Cursor::new(data);
    let table = LoadCommand::parse_all(&mut cursor, 0, 3, 0, e).unwrap();
    assert_eq!(table.len(), 3);
    match table[0].variant {
        LcVariant::Thread(t) => {
            assert_eq!(t.flavor, 6);
            assert_eq!(t.count, 68);
        }
        _ => panic!("expected a thread command"),
    }
    assert_eq!(table[1].cmd, 0x7F);
    assert_eq!(table[1].cmdsize, 12);
    assert_eq!(table[1].variant, LcVariant::Unknown);
    assert_eq!(table[2].base_offset, 28);
    match table[2].variant {
        LcVariant::LinkEditData(l) => {
            assert_eq!(l.dataoff, 0x400);
            assert_eq!(l.datasize, 0x20);
        }
        _ => panic!("expected a linkedit-data command"),
    }
}

#[test]
fn thread_command_fields_decoded() {
    let e = Endian::Big;
    let mut data = Vec::new();
    push_command(&mut data, 0x5, 24, &[1, 17], e);
    let mut cursor = Cursor::new(data);
    let c = LoadCommand::parse(&mut cursor, 0, 0, e).unwrap();
    assert_eq!(c.cmd, 0x5);
    assert_eq!(c.cmdsize, 24);
    assert_eq!(c.base_offset, 0);
    assert_eq!(c.endian, Endian::Big);
    match c.variant {
        LcVariant::Thread(t) => {
            assert_eq!(t.flavor, 1);
            assert_eq!(t.count, 17);
        }
        _ => panic!("expected a thread command"),
    }
}

#[test]
fn linkedit_command_records_object_offset() {
    let e = Endian::Little;
    let base: u64 = 6;
    let mut data = vec![0; base as usize];
    push_command(&mut data, 0x26, 16, &[0x1000, 0x84], e);
    let mut cursor = Cursor::new(data);
    let c = LoadCommand::parse(&mut cursor, base, 77, e).unwrap();
    match c.variant {
        LcVariant::LinkEditData(l) => {
            assert_eq!(l.object_file_offset, 77);
            assert_eq!(l.dataoff, 0x1000);
            assert_eq!(l.datasize, 0x84);
        }
        _ => panic!("expected a linkedit-data command"),
    }
}

#[test]
fn malformed_cmdsize_rejected() {
    // A thread command needs 16 bytes of fixed fields; 12 is malformed.
    let e = Endian::Big;
    let mut data = Vec::new();
    push_command(&mut data, 0x4, 12, &[1], e);
    let mut cursor = Cursor::new(data);
    let res = LoadCommand::parse(&mut cursor, 0, 0, e);
    assert_eq!(
        res,
        Err(Error::MalformedCommand { cmd: 0x4, cmdsize: 12, required: 16 })
    );
}

#[test]
fn malformed_cmdsize_smaller_than_prefix_rejected() {
    // Even an unknown command must cover its own eight-byte prefix.
    let e = Endian::Little;
    let mut data = Vec::new();
    push_u32(&mut data, 0x7F, e);
    push_u32(&mut data, 4, e);
    let mut cursor = Cursor::new(data);
    let res = LoadCommand::parse(&mut cursor, 0, 0, e);
    assert_eq!(
        res,
        Err(Error::MalformedCommand { cmd: 0x7F, cmdsize: 4, required: 8 })
    );
}

#[test]
fn command_prefix_out_of_bounds() {
    let data = vec![0x00, 0x00, 0x00, 0x04];
    let mut cursor = Cursor::new(data);
    let res = LoadCommand::parse(&mut cursor, 0, 0, Endian::Big);
    assert_eq!(
        res,
        Err(Error::ReadOutOfBounds { offset: 0, count: 8, available: 4 })
    );
}

#[test]
fn scan_fails_where_declared_count_overruns_table() {
    let e = Endian::Big;
    let mut data = Vec::new();
    push_command(&mut data, 0x99, 8, &[], e);
    let mut cursor = Cursor::new(data);
    // Two commands declared, one present: the second prefix read fails.
    let res = LoadCommand::parse_all(&mut cursor, 0, 2, 0, e);
    assert_eq!(
        res,
        Err(Error::ReadOutOfBounds { offset: 8, count: 8, available: 8 })
    );
}

#[test]
fn scan_of_zero_commands_is_empty() {
    let mut cursor = Cursor::new(Vec::new());
    let table = LoadCommand::parse_all(&mut cursor, 0, 0, 0, Endian::Big).unwrap();
    assert_eq!(table.len(), 0);
}

#[test]
fn thread_body_out_of_bounds() {
    // Prefix present and well formed, body cut off.
    let e = Endian::Big;
    let mut data = Vec::new();
    push_u32(&mut data, 0x4, e);
    push_u32(&mut data, 16, e);
    push_u32(&mut data, 6, e);
    let mut cursor = Cursor::new(data);
    let res = LoadCommand::parse(&mut cursor, 0, 0, e);
    assert_eq!(
        res,
        Err(Error::ReadOutOfBounds { offset: 8, count: 8, available: 12 })
    );
}
