use schnauzer::Cursor;
use schnauzer::Endian;
use schnauzer::Error;
use schnauzer::LcVariant;
use schnauzer::MachObject;
use schnauzer::Magic;

fn push_u32(v: &mut Vec<u8>, x: u32, e: Endian) {
    match e {
        Endian::Big => {
            v.push((x >> 24) as u8);
            v.push((x >> 16) as u8);
            v.push((x >> 8) as u8);
            v.push(x as u8);
        }
        Endian::Little => {
            v.push(x as u8);
            v.push((x >> 8) as u8);
            v.push((x >> 16) as u8);
            v.push((x >> 24) as u8);
        }
    }
}

/// A little-endian 64-bit object at file offset `base`: a header with two
/// load commands (one thread, one function-starts pointing at `blob`),
/// and the blob itself at `base + dataoff`.
fn build_object(base: usize, blob: &[u8]) -> Vec<u8> {
    let e = Endian::Little;
    let dataoff: u32 = 80;
    let mut v = vec![0xEE; base];
    push_u32(&mut v, 0xCFFAEDFE, Endian::Big);
    push_u32(&mut v, 0x0100000C, e);
    push_u32(&mut v, 0x80000002, e);
    push_u32(&mut v, 2, e);
    push_u32(&mut v, 2, e);
    push_u32(&mut v, 32, e);
    push_u32(&mut v, 0x85, e);
    push_u32(&mut v, 0, e);
    push_u32(&mut v, 0x5, e);
    push_u32(&mut v, 16, e);
    push_u32(&mut v, 6, e);
    push_u32(&mut v, 68, e);
    push_u32(&mut v, 0x26, e);
    push_u32(&mut v, 16, e);
    push_u32(&mut v, dataoff, e);
    push_u32(&mut v, blob.len() as u32, e);
    while v.len() < base + dataoff as usize {
        v.push(0xEE);
    }
    v.extend_from_slice(blob);
    v
}

#[test]
fn parse_whole_object() {
    let blob = [9, 8, 7, 6, 5];
    let data = build_object(0, &blob);
    let mut cursor = Cursor::new(data);
    let object = MachObject::parse(&mut cursor, 0).unwrap();
    assert_eq!(object.header.magic, Magic::Bin64Reverse);
    assert_eq!(object.header.ncmds, 2);
    assert_eq!(object.commands.len(), 2);
    assert_eq!(object.commands[0].base_offset, 32);
    assert_eq!(object.commands[1].base_offset, 48);
    match object.commands[0].variant {
        LcVariant::Thread(t) => {
            assert_eq!(t.flavor, 6);
            assert_eq!(t.count, 68);
        }
        _ => panic!("expected a thread command"),
    }
    match object.commands[1].variant {
        LcVariant::LinkEditData(l) => {
            assert_eq!(l.object_file_offset, 0);
            assert_eq!(l.dataoff, 80);
            assert_eq!(l.datasize, 5);
            let mut sink = Vec::new();
            l.read_data_to(&mut cursor, &mut sink).unwrap();
            assert_eq!(sink, blob.to_vec());
        }
        _ => panic!("expected a linkedit-data command"),
    }
}

#[test]
fn parse_object_embedded_at_offset() {
    // The object starts inside a larger file; dataoff is relative to the
    // object's base, not to the file.
    let base = 512;
    let blob = [0x10, 0x20, 0x30];
    let data = build_object(base, &blob);
    let mut cursor = Cursor::new(data);
    let object = MachObject::parse(&mut cursor, base as u64).unwrap();
    assert_eq!(object.commands.len(), 2);
    assert_eq!(object.commands[0].base_offset, base as u64 + 32);
    match object.commands[1].variant {
        LcVariant::LinkEditData(l) => {
            assert_eq!(l.object_file_offset, base as u64);
            let mut sink = Vec::new();
            l.read_data_to(&mut cursor, &mut sink).unwrap();
            assert_eq!(sink, blob.to_vec());
        }
        _ => panic!("expected a linkedit-data command"),
    }
}

#[test]
fn object_with_bad_magic_fails() {
    let data = vec![0u8; 64];
    let mut cursor = Cursor::new(data);
    let res = MachObject::parse(&mut cursor, 0);
    assert_eq!(res.err(), Some(Error::UnknownMagic { value: 0 }));
}

#[test]
fn object_with_overrunning_table_fails() {
    // The header declares more commands than the file holds.
    let blob = [1, 2];
    let mut data = build_object(0, &blob);
    // Raise ncmds (offset 16, little-endian) far beyond the table.
    data[16] = 40;
    let mut cursor = Cursor::new(data);
    let res = MachObject::parse(&mut cursor, 0);
    assert!(matches!(res, Err(Error::ReadOutOfBounds { .. })));
}
