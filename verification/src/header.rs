use vstd::prelude::*;

use crate::bytes::lemma_u32_at_append;
use crate::bytes::lemma_u32_at_prepend;
use crate::bytes::lemma_u32_round_trip;
use crate::bytes::u32_at;
use crate::bytes::u32_bytes;
use crate::cursor::Cursor;
use crate::endian::Endian;
use crate::err::Error;
use crate::machine::CPUSubtype;
use crate::machine::CPUType;
use crate::magic::Magic;

verus! {

/// The number of bytes a header occupies on file: seven `u32` words, plus
/// a trailing `reserved` word for the 64-bit magics.
pub open spec fn spec_header_size(m: Magic) -> u64 {
    if m.spec_is_64() {
        32
    } else {
        28
    }
}

/// The fixed-size file header of a Mach-O object: the magic, the machine
/// it was built for, the file type, the shape of the load-command table,
/// and the flag word. Parsed once per file and immutable afterwards.
#[derive(Clone, Copy, Debug, PartialEq, Eq, Structural)]
pub struct MachHeader {
    pub magic: Magic,
    pub cputype: CPUType,
    pub cpusubtype: CPUSubtype,
    pub filetype: u32,
    pub ncmds: u32,
    pub sizeofcmds: u32,
    pub flags: u32,
    /// Present on file only for 64-bit magics; 0 otherwise.
    pub reserved: u32,
}

impl MachHeader {
    /// The header decoded from `d` at position `p`: the first four bytes,
    /// read big-endian, must hold a known magic, which fixes the byte
    /// order and size of everything after it. Fails with `UnknownMagic`
    /// on an unrecognized magic and with `ReadOutOfBounds` where the data
    /// ends inside the header.
    pub open spec fn spec_parse(d: Seq<u8>, p: u64) -> Result<MachHeader, Error> {
        if p + 4 > d.len() {
            Err(Error::ReadOutOfBounds { offset: p, count: 4, available: d.len() as u64 })
        } else {
            let value = u32_at(d, p as int, Endian::Big);
            match Magic::spec_from_value(value) {
                None => Err(Error::UnknownMagic { value }),
                Some(magic) => {
                    let e = magic.spec_endian();
                    let size = spec_header_size(magic);
                    if p + size > d.len() {
                        Err(
                            Error::ReadOutOfBounds {
                                offset: p,
                                count: size,
                                available: d.len() as u64,
                            },
                        )
                    } else {
                        Ok(
                            MachHeader {
                                magic,
                                cputype: CPUType(u32_at(d, p + 4, e)),
                                cpusubtype: CPUSubtype(u32_at(d, p + 8, e)),
                                filetype: u32_at(d, p + 12, e),
                                ncmds: u32_at(d, p + 16, e),
                                sizeofcmds: u32_at(d, p + 20, e),
                                flags: u32_at(d, p + 24, e),
                                reserved: if magic.spec_is_64() {
                                    u32_at(d, p + 28, e)
                                } else {
                                    0
                                },
                            },
                        )
                    }
                },
            }
        }
    }

    /// Reads a header at the cursor's current position. On success the
    /// cursor stands just past the header; after an unrecognized magic it
    /// stands exactly four bytes in, nothing more having been consumed.
    pub fn parse(cursor: &mut Cursor) -> (res: Result<MachHeader, Error>)
        ensures
            final(cursor).bytes() == old(cursor).bytes(),
            res == MachHeader::spec_parse(old(cursor).bytes(), old(cursor).spec_position()),
            res is Ok ==> final(cursor).spec_position() == old(cursor).spec_position()
                + spec_header_size(res.unwrap().magic),
            res is Err ==> final(cursor).spec_position() == (
            if old(cursor).spec_position() + 4 <= old(cursor).bytes().len() {
                old(cursor).spec_position() + 4
            } else {
                old(cursor).spec_position() as int
            }),
    {
        let start = cursor.position();
        let value = match cursor.read_u32(Endian::Big) {
            Ok(v) => v,
            Err(er) => {
                return Err(er);
            },
        };
        let magic = match Magic::from_value(value) {
            Some(m) => m,
            None => {
                return Err(Error::UnknownMagic { value });
            },
        };
        let e = magic.endian();
        let size: u64 = if magic.is_64() {
            32
        } else {
            28
        };
        let len = cursor.len();
        if size > len as u64 - start {
            return Err(
                Error::ReadOutOfBounds { offset: start, count: size, available: len as u64 },
            );
        }
        let cputype = match cursor.read_u32(e) {
            Ok(v) => CPUType(v),
            Err(er) => {
                return Err(er);
            },
        };
        let cpusubtype = match cursor.read_u32(e) {
            Ok(v) => CPUSubtype(v),
            Err(er) => {
                return Err(er);
            },
        };
        let filetype = match cursor.read_u32(e) {
            Ok(v) => v,
            Err(er) => {
                return Err(er);
            },
        };
        let ncmds = match cursor.read_u32(e) {
            Ok(v) => v,
            Err(er) => {
                return Err(er);
            },
        };
        let sizeofcmds = match cursor.read_u32(e) {
            Ok(v) => v,
            Err(er) => {
                return Err(er);
            },
        };
        let flags = match cursor.read_u32(e) {
            Ok(v) => v,
            Err(er) => {
                return Err(er);
            },
        };
        let reserved = if magic.is_64() {
            match cursor.read_u32(e) {
                Ok(v) => v,
                Err(er) => {
                    return Err(er);
                },
            }
        } else {
            0
        };
        Ok(MachHeader { magic, cputype, cpusubtype, filetype, ncmds, sizeofcmds, flags, reserved })
    }
}

/// The bytes a header occupies on file: the magic as read big-endian,
/// then every field in the byte order the magic fixes, with the
/// `reserved` word present only under a 64-bit magic.
pub open spec fn spec_encode_header(h: MachHeader) -> Seq<u8> {
    let e = h.magic.spec_endian();
    u32_bytes(h.magic.spec_value(), Endian::Big) + u32_bytes(h.cputype.0, e) + u32_bytes(
        h.cpusubtype.0,
        e,
    ) + u32_bytes(h.filetype, e) + u32_bytes(h.ncmds, e) + u32_bytes(h.sizeofcmds, e) + u32_bytes(
        h.flags,
        e,
    ) + (if h.magic.spec_is_64() {
        u32_bytes(h.reserved, e)
    } else {
        Seq::<u8>::empty()
    })
}

/// Round trip: a header encoded with known field values, in the byte
/// order its magic fixes, decodes to exactly those values. This holds for
/// each of the four magics, so parsing selects the matching byte order
/// and reads the `reserved` word exactly under the 64-bit magics. A
/// 32-bit header can only carry `reserved == 0`, the value parsing
/// defaults it to.
pub proof fn lemma_header_round_trip(h: MachHeader)
    requires
        h.magic.spec_is_64() || h.reserved == 0,
    ensures
        MachHeader::spec_parse(spec_encode_header(h), 0) == Ok::<MachHeader, Error>(h),
{
    let e = h.magic.spec_endian();
    let m0 = u32_bytes(h.magic.spec_value(), Endian::Big);
    let c1 = u32_bytes(h.cputype.0, e);
    let c2 = u32_bytes(h.cpusubtype.0, e);
    let c3 = u32_bytes(h.filetype, e);
    let c4 = u32_bytes(h.ncmds, e);
    let c5 = u32_bytes(h.sizeofcmds, e);
    let c6 = u32_bytes(h.flags, e);
    let c7 = if h.magic.spec_is_64() {
        u32_bytes(h.reserved, e)
    } else {
        Seq::<u8>::empty()
    };
    let p1 = m0 + c1;
    let p2 = p1 + c2;
    let p3 = p2 + c3;
    let p4 = p3 + c4;
    let p5 = p4 + c5;
    let p6 = p5 + c6;
    let d = p6 + c7;
    assert(d == spec_encode_header(h));
    assert(d.len() == spec_header_size(h.magic));

    lemma_u32_at_prepend(p6, c7, 0, Endian::Big);
    lemma_u32_at_prepend(p5, c6, 0, Endian::Big);
    lemma_u32_at_prepend(p4, c5, 0, Endian::Big);
    lemma_u32_at_prepend(p3, c4, 0, Endian::Big);
    lemma_u32_at_prepend(p2, c3, 0, Endian::Big);
    lemma_u32_at_prepend(p1, c2, 0, Endian::Big);
    lemma_u32_at_prepend(m0, c1, 0, Endian::Big);
    lemma_u32_round_trip(h.magic.spec_value(), Endian::Big);
    assert(u32_at(d, 0, Endian::Big) == h.magic.spec_value());
    Magic::lemma_value_round_trip();
    assert(Magic::spec_from_value(u32_at(d, 0, Endian::Big)) == Some(h.magic));

    lemma_u32_at_prepend(p6, c7, 4, e);
    lemma_u32_at_prepend(p5, c6, 4, e);
    lemma_u32_at_prepend(p4, c5, 4, e);
    lemma_u32_at_prepend(p3, c4, 4, e);
    lemma_u32_at_prepend(p2, c3, 4, e);
    lemma_u32_at_prepend(p1, c2, 4, e);
    lemma_u32_at_append(m0, c1, 4, e);
    lemma_u32_round_trip(h.cputype.0, e);
    assert(u32_at(d, 4, e) == h.cputype.0);

    lemma_u32_at_prepend(p6, c7, 8, e);
    lemma_u32_at_prepend(p5, c6, 8, e);
    lemma_u32_at_prepend(p4, c5, 8, e);
    lemma_u32_at_prepend(p3, c4, 8, e);
    lemma_u32_at_prepend(p2, c3, 8, e);
    lemma_u32_at_append(p1, c2, 8, e);
    lemma_u32_round_trip(h.cpusubtype.0, e);
    assert(u32_at(d, 8, e) == h.cpusubtype.0);

    lemma_u32_at_prepend(p6, c7, 12, e);
    lemma_u32_at_prepend(p5, c6, 12, e);
    lemma_u32_at_prepend(p4, c5, 12, e);
    lemma_u32_at_prepend(p3, c4, 12, e);
    lemma_u32_at_append(p2, c3, 12, e);
    lemma_u32_round_trip(h.filetype, e);
    assert(u32_at(d, 12, e) == h.filetype);

    lemma_u32_at_prepend(p6, c7, 16, e);
    lemma_u32_at_prepend(p5, c6, 16, e);
    lemma_u32_at_prepend(p4, c5, 16, e);
    lemma_u32_at_append(p3, c4, 16, e);
    lemma_u32_round_trip(h.ncmds, e);
    assert(u32_at(d, 16, e) == h.ncmds);

    lemma_u32_at_prepend(p6, c7, 20, e);
    lemma_u32_at_prepend(p5, c6, 20, e);
    lemma_u32_at_append(p4, c5, 20, e);
    lemma_u32_round_trip(h.sizeofcmds, e);
    assert(u32_at(d, 20, e) == h.sizeofcmds);

    lemma_u32_at_prepend(p6, c7, 24, e);
    lemma_u32_at_append(p5, c6, 24, e);
    lemma_u32_round_trip(h.flags, e);
    assert(u32_at(d, 24, e) == h.flags);

    if h.magic.spec_is_64() {
        lemma_u32_at_append(p6, c7, 28, e);
        lemma_u32_round_trip(h.reserved, e);
        assert(u32_at(d, 28, e) == h.reserved);
    }
}

impl MachHeader {
    /// The CPU subtype with its capability-mask bits cleared.
    pub fn masked_cpu_subtype(&self) -> (r: CPUSubtype)
        ensures
            r == self.cpusubtype.spec_masked(),
    {
        self.cpusubtype.masked()
    }

    /// The capability-flag bits of the CPU subtype.
    pub fn feature_flags(&self) -> (r: u32)
        ensures
            r == self.cpusubtype.spec_feature_flags(),
    {
        self.cpusubtype.feature_flags()
    }

    /// Whether the CPU type names a 64-bit architecture.
    pub fn is_64(&self) -> (r: bool)
        ensures
            r == self.cputype.spec_is_64(),
    {
        self.cputype.is_64()
    }
}

impl MachHeader {
    /// The magic this header was decoded under.
    pub fn magic(&self) -> (r: Magic)
        ensures
            r == self.magic,
    {
        self.magic
    }

    /// The raw CPU type.
    pub fn cpu_type(&self) -> (r: CPUType)
        ensures
            r == self.cputype,
    {
        self.cputype
    }

    /// The CPU subtype with its capability-mask bits cleared.
    pub fn cpu_subtype(&self) -> (r: CPUSubtype)
        ensures
            r == self.cpusubtype.spec_masked(),
    {
        self.cpusubtype.masked()
    }

    /// The file type word.
    pub fn file_type(&self) -> (r: u32)
        ensures
            r == self.filetype,
    {
        self.filetype
    }

    /// The number of load commands in the command table.
    pub fn ncmds(&self) -> (r: u32)
        ensures
            r == self.ncmds,
    {
        self.ncmds
    }

    /// The total byte size the command table declares for itself.
    pub fn size_of_cmds(&self) -> (r: u32)
        ensures
            r == self.sizeofcmds,
    {
        self.sizeofcmds
    }

    /// The flag word.
    pub fn flags(&self) -> (r: u32)
        ensures
            r == self.flags,
    {
        self.flags
    }

    /// The reserved word of a 64-bit header; 0 for 32-bit headers.
    pub fn reserved(&self) -> (r: u32)
        ensures
            r == self.reserved,
    {
        self.reserved
    }
}

} // verus!
