use vstd::prelude::*;

use crate::cursor::Cursor;
use crate::err::Error;
use crate::header::spec_header_size;
use crate::header::MachHeader;
use crate::load_command::sat_add_u64;
use crate::load_command::LoadCommand;

verus! {

/// A fully scanned Mach-O object: its header and its load-command table,
/// in file order. Blob extraction is left to the individual linkedit-data
/// entries, on demand.
#[derive(Clone, Debug)]
pub struct MachObject {
    pub header: MachHeader,
    pub commands: Vec<LoadCommand>,
}

impl MachObject {
    /// The header and command table decoded from `d` for an object that
    /// starts at `base`: the header first, then `ncmds` commands starting
    /// immediately after it, in the byte order the magic fixes, with
    /// data offsets taken relative to `base`.
    pub open spec fn spec_parse(d: Seq<u8>, base: u64) -> Result<
        (MachHeader, Seq<LoadCommand>),
        Error,
    > {
        match MachHeader::spec_parse(d, base) {
            Err(er) => Err(er),
            Ok(h) => {
                let table_offset = sat_add_u64(base, spec_header_size(h.magic));
                match LoadCommand::spec_scan(
                    d,
                    table_offset,
                    h.ncmds as nat,
                    base,
                    h.magic.spec_endian(),
                ) {
                    Err(er) => Err(er),
                    Ok(s) => Ok((h, s)),
                }
            },
        }
    }

    /// Scans a whole object standing at file offset `base_offset`.
    pub fn parse(cursor: &mut Cursor, base_offset: u64) -> (res: Result<MachObject, Error>)
        ensures
            final(cursor).bytes() == old(cursor).bytes(),
            (match (res, MachObject::spec_parse(old(cursor).bytes(), base_offset)) {
                (Ok(o), Ok((h, s))) => o.header == h && o.commands@ == s,
                (Err(a), Err(b)) => a == b,
                _ => false,
            }),
    {
        cursor.seek(base_offset);
        let header = match MachHeader::parse(cursor) {
            Ok(h) => h,
            Err(er) => {
                return Err(er);
            },
        };
        let size: u64 = if header.magic.is_64() {
            32
        } else {
            28
        };
        let table_offset = base_offset + size;
        let commands = match LoadCommand::parse_all(
            cursor,
            table_offset,
            header.ncmds,
            base_offset,
            header.magic.endian(),
        ) {
            Ok(v) => v,
            Err(er) => {
                return Err(er);
            },
        };
        Ok(MachObject { header, commands })
    }
}

} // verus!
