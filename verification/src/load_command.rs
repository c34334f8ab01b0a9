use vstd::prelude::*;

use crate::bytes::u32_at;
use crate::cursor::Cursor;
use crate::endian::Endian;
use crate::err::Error;

verus! {

/// Tag of a thread-state command.
pub const LC_THREAD: u32 = 0x4;

/// Tag of a Unix thread-state command.
pub const LC_UNIXTHREAD: u32 = 0x5;

/// Tag of a code-signature linkedit-data command.
pub const LC_CODE_SIGNATURE: u32 = 0x1D;

/// Tag of a segment-split-info linkedit-data command.
pub const LC_SEGMENT_SPLIT_INFO: u32 = 0x1E;

/// Tag of a function-starts linkedit-data command.
pub const LC_FUNCTION_STARTS: u32 = 0x26;

/// Tag of a data-in-code linkedit-data command.
pub const LC_DATA_IN_CODE: u32 = 0x29;

/// Tag of a code-sign-DRs linkedit-data command.
pub const LC_DYLIB_CODE_SIGN_DRS: u32 = 0x2B;

/// Tag of a linker-optimization-hint linkedit-data command.
pub const LC_LINKER_OPTIMIZATION_HINT: u32 = 0x2E;

/// Number of bytes of the intermediate buffer used while extracting a
/// linkedit-data blob; memory use stays bounded whatever the blob's size.
pub const BUFFER_SIZE: u32 = 4096;

/// Whether `cmd` tags a thread-state command.
pub open spec fn spec_is_thread_cmd(cmd: u32) -> bool {
    cmd == LC_THREAD || cmd == LC_UNIXTHREAD
}

/// Whether `cmd` tags a thread-state command.
pub fn is_thread_cmd(cmd: u32) -> (r: bool)
    ensures
        r == spec_is_thread_cmd(cmd),
{
    cmd == LC_THREAD || cmd == LC_UNIXTHREAD
}

/// Whether `cmd` tags a linkedit-data command.
pub open spec fn spec_is_linkedit_data_cmd(cmd: u32) -> bool {
    ||| cmd == LC_CODE_SIGNATURE
    ||| cmd == LC_SEGMENT_SPLIT_INFO
    ||| cmd == LC_FUNCTION_STARTS
    ||| cmd == LC_DATA_IN_CODE
    ||| cmd == LC_DYLIB_CODE_SIGN_DRS
    ||| cmd == LC_LINKER_OPTIMIZATION_HINT
}

/// Whether `cmd` tags a linkedit-data command.
pub fn is_linkedit_data_cmd(cmd: u32) -> (r: bool)
    ensures
        r == spec_is_linkedit_data_cmd(cmd),
{
    cmd == LC_CODE_SIGNATURE || cmd == LC_SEGMENT_SPLIT_INFO || cmd == LC_FUNCTION_STARTS || cmd
        == LC_DATA_IN_CODE || cmd == LC_DYLIB_CODE_SIGN_DRS || cmd == LC_LINKER_OPTIMIZATION_HINT
}

/// The smallest `cmdsize` a command with tag `cmd` may declare: the
/// eight-byte (cmd, cmdsize) prefix, plus the eight fixed body bytes of
/// the kinds decoded here. A smaller `cmdsize` is a malformed command.
pub open spec fn spec_min_cmdsize(cmd: u32) -> u32 {
    if spec_is_thread_cmd(cmd) || spec_is_linkedit_data_cmd(cmd) {
        16
    } else {
        8
    }
}

/// The smallest `cmdsize` a command with tag `cmd` may declare.
pub fn min_cmdsize(cmd: u32) -> (r: u32)
    ensures
        r == spec_min_cmdsize(cmd),
{
    if is_thread_cmd(cmd) || is_linkedit_data_cmd(cmd) {
        16
    } else {
        8
    }
}

/// A thread-state command: a machine-specific flavor and the count of
/// state words. The variable-length state record that follows on file is
/// deliberately not decoded.
#[derive(Clone, Copy, Debug, PartialEq, Eq, Structural)]
pub struct LcThread {
    pub flavor: u32,
    pub count: u32,
}

impl LcThread {
    /// The thread command body decoded from `d` at `base`: flavor then
    /// count, in byte order `e`.
    pub open spec fn spec_parse(d: Seq<u8>, base: u64, e: Endian) -> Result<LcThread, Error> {
        if base + 8 > d.len() {
            Err(Error::ReadOutOfBounds { offset: base, count: 8, available: d.len() as u64 })
        } else {
            Ok(LcThread { flavor: u32_at(d, base as int, e), count: u32_at(d, base + 4, e) })
        }
    }

    /// Reads a thread command body at file offset `base_offset`.
    pub fn parse(cursor: &mut Cursor, base_offset: u64, endian: Endian) -> (res: Result<
        LcThread,
        Error,
    >)
        ensures
            final(cursor).bytes() == old(cursor).bytes(),
            res == LcThread::spec_parse(old(cursor).bytes(), base_offset, endian),
    {
        let len = cursor.len();
        if base_offset > len as u64 || 8 > len as u64 - base_offset {
            return Err(
                Error::ReadOutOfBounds { offset: base_offset, count: 8, available: len as u64 },
            );
        }
        cursor.seek(base_offset);
        let flavor = match cursor.read_u32(endian) {
            Ok(v) => v,
            Err(er) => {
                return Err(er);
            },
        };
        let count = match cursor.read_u32(endian) {
            Ok(v) => v,
            Err(er) => {
                return Err(er);
            },
        };
        Ok(LcThread { flavor, count })
    }
}

/// A linkedit-data command: a blob of auxiliary bytes referenced by an
/// offset from the start of the enclosing object and a byte length. The
/// blob itself is not read at parse time; `read_data_to` extracts it on
/// demand.
#[derive(Clone, Copy, Debug, PartialEq, Eq, Structural)]
pub struct LcLinkEditData {
    /// File offset of the start of the enclosing object; `dataoff` is
    /// relative to it, not to the command.
    pub object_file_offset: u64,
    pub dataoff: u32,
    pub datasize: u32,
}

impl LcLinkEditData {
    /// The linkedit-data command body decoded from `d` at `base`: dataoff
    /// then datasize, in byte order `e`.
    pub open spec fn spec_parse(d: Seq<u8>, base: u64, object_file_offset: u64, e: Endian) -> Result<
        LcLinkEditData,
        Error,
    > {
        if base + 8 > d.len() {
            Err(Error::ReadOutOfBounds { offset: base, count: 8, available: d.len() as u64 })
        } else {
            Ok(
                LcLinkEditData {
                    object_file_offset,
                    dataoff: u32_at(d, base as int, e),
                    datasize: u32_at(d, base + 4, e),
                },
            )
        }
    }

    /// Reads a linkedit-data command body at file offset `base_offset`.
    /// No blob bytes are read here, so scanning a command table stays
    /// cheap whatever the referenced blob's size.
    pub fn parse(
        cursor: &mut Cursor,
        base_offset: u64,
        object_file_offset: u64,
        endian: Endian,
    ) -> (res: Result<LcLinkEditData, Error>)
        ensures
            final(cursor).bytes() == old(cursor).bytes(),
            res == LcLinkEditData::spec_parse(
                old(cursor).bytes(),
                base_offset,
                object_file_offset,
                endian,
            ),
    {
        let len = cursor.len();
        if base_offset > len as u64 || 8 > len as u64 - base_offset {
            return Err(
                Error::ReadOutOfBounds { offset: base_offset, count: 8, available: len as u64 },
            );
        }
        cursor.seek(base_offset);
        let dataoff = match cursor.read_u32(endian) {
            Ok(v) => v,
            Err(er) => {
                return Err(er);
            },
        };
        let datasize = match cursor.read_u32(endian) {
            Ok(v) => v,
            Err(er) => {
                return Err(er);
            },
        };
        Ok(LcLinkEditData { object_file_offset, dataoff, datasize })
    }

    /// The absolute file offset where the referenced blob starts:
    /// `object_file_offset + dataoff`, held at `u64::MAX` where the sum
    /// would not fit (such a blob always lies out of bounds).
    pub open spec fn spec_extraction_start(&self) -> u64 {
        if self.object_file_offset + self.dataoff > u64::MAX {
            u64::MAX
        } else {
            (self.object_file_offset + self.dataoff) as u64
        }
    }

    /// Copies the referenced blob — exactly `datasize` bytes starting at
    /// `object_file_offset + dataoff` — onto the end of `out`, through a
    /// fixed-size intermediate buffer. A blob that reaches past the end
    /// of the data fails with `ReadOutOfBounds` and writes nothing.
    pub fn read_data_to(&self, cursor: &mut Cursor, out: &mut Vec<u8>) -> (res: Result<(), Error>)
        ensures
            final(cursor).bytes() == old(cursor).bytes(),
            self.spec_extraction_start() + self.datasize <= old(cursor).bytes().len() ==> {
                &&& res is Ok
                &&& final(out)@ == old(out)@ + old(cursor).bytes().subrange(
                    self.spec_extraction_start() as int,
                    self.spec_extraction_start() + self.datasize,
                )
                &&& final(cursor).spec_position() == self.spec_extraction_start() + self.datasize
            },
            self.spec_extraction_start() + self.datasize > old(cursor).bytes().len() ==> {
                &&& res == Err::<(), Error>(
                    Error::ReadOutOfBounds {
                        offset: self.spec_extraction_start(),
                        count: self.datasize as u64,
                        available: old(cursor).bytes().len() as u64,
                    },
                )
                &&& final(out)@ == old(out)@
                &&& *final(cursor) == *old(cursor)
            },
    {
        let len = cursor.len();
        let start: u64 = if self.dataoff as u64 > u64::MAX - self.object_file_offset {
            u64::MAX
        } else {
            self.object_file_offset + self.dataoff as u64
        };
        let n = self.datasize;
        if start > len as u64 || n as u64 > len as u64 - start {
            return Err(
                Error::ReadOutOfBounds { offset: start, count: n as u64, available: len as u64 },
            );
        }
        cursor.seek(start);
        let ghost d = cursor.bytes();
        let ghost out0 = out@;
        let mut remaining: u32 = n;
        while remaining > 0
            invariant
                remaining <= n,
                start + n <= d.len(),
                cursor.bytes() == d,
                cursor.spec_position() == start + n - remaining,
                out@ == out0 + d.subrange(start as int, start + n - remaining),
            decreases remaining,
        {
            let to_read: u32 = if remaining < BUFFER_SIZE {
                remaining
            } else {
                BUFFER_SIZE
            };
            let mut chunk = match cursor.read_bytes(to_read as usize) {
                Ok(c) => c,
                Err(er) => {
                    return Err(er);
                },
            };
            out.append(&mut chunk);
            remaining = remaining - to_read;
            proof {
                assert(out@ =~= out0 + d.subrange(start as int, start + n - remaining));
            }
        }
        proof {
            assert(out@ =~= out0 + d.subrange(start as int, start + n));
        }
        Ok(())
    }
}

/// The kind-specific part of a decoded load command. Tags with no decoder
/// registered stay as `Unknown`: the format grows new kinds, and an
/// unrecognized tag is expected, not an error.
#[derive(Clone, Copy, Debug, PartialEq, Eq, Structural)]
pub enum LcVariant {
    LinkEditData(LcLinkEditData),
    Thread(LcThread),
    Unknown,
}

/// One decoded entry of the load-command table: the common (cmd, cmdsize)
/// prefix, the file offset the command starts at, the byte order it was
/// decoded under, and its kind-specific fields.
#[derive(Clone, Copy, Debug, PartialEq, Eq, Structural)]
pub struct LoadCommand {
    pub cmd: u32,
    pub cmdsize: u32,
    pub base_offset: u64,
    pub endian: Endian,
    pub variant: LcVariant,
}

/// `a + b`, held at `u64::MAX` where the sum would not fit.
pub open spec fn sat_add_u64(a: u64, b: u64) -> u64 {
    if a + b > u64::MAX {
        u64::MAX
    } else {
        (a + b) as u64
    }
}

impl LoadCommand {
    /// The command decoded from `d` at `off`: the (cmd, cmdsize) prefix,
    /// then the fields of the kind `cmd` tags. A `cmdsize` below the
    /// kind's fixed fields is a malformed command; an unrecognized tag is
    /// kept as an opaque entry.
    pub open spec fn spec_parse(d: Seq<u8>, off: u64, object_file_offset: u64, e: Endian) -> Result<
        LoadCommand,
        Error,
    > {
        if off + 8 > d.len() {
            Err(Error::ReadOutOfBounds { offset: off, count: 8, available: d.len() as u64 })
        } else {
            let cmd = u32_at(d, off as int, e);
            let cmdsize = u32_at(d, off + 4, e);
            let required = spec_min_cmdsize(cmd);
            if cmdsize < required {
                Err(Error::MalformedCommand { cmd, cmdsize, required })
            } else if spec_is_thread_cmd(cmd) {
                match LcThread::spec_parse(d, (off + 8) as u64, e) {
                    Ok(t) => Ok(
                        LoadCommand {
                            cmd,
                            cmdsize,
                            base_offset: off,
                            endian: e,
                            variant: LcVariant::Thread(t),
                        },
                    ),
                    Err(er) => Err(er),
                }
            } else if spec_is_linkedit_data_cmd(cmd) {
                match LcLinkEditData::spec_parse(d, (off + 8) as u64, object_file_offset, e) {
                    Ok(l) => Ok(
                        LoadCommand {
                            cmd,
                            cmdsize,
                            base_offset: off,
                            endian: e,
                            variant: LcVariant::LinkEditData(l),
                        },
                    ),
                    Err(er) => Err(er),
                }
            } else {
                Ok(
                    LoadCommand {
                        cmd,
                        cmdsize,
                        base_offset: off,
                        endian: e,
                        variant: LcVariant::Unknown,
                    },
                )
            }
        }
    }

    /// Decodes one command at file offset `base_offset`. The cursor's
    /// position afterwards is unspecified; position it anew before the
    /// next read.
    pub fn parse(
        cursor: &mut Cursor,
        base_offset: u64,
        object_file_offset: u64,
        endian: Endian,
    ) -> (res: Result<LoadCommand, Error>)
        ensures
            final(cursor).bytes() == old(cursor).bytes(),
            res == LoadCommand::spec_parse(
                old(cursor).bytes(),
                base_offset,
                object_file_offset,
                endian,
            ),
    {
        let len = cursor.len();
        if base_offset > len as u64 || 8 > len as u64 - base_offset {
            return Err(
                Error::ReadOutOfBounds { offset: base_offset, count: 8, available: len as u64 },
            );
        }
        cursor.seek(base_offset);
        let cmd = match cursor.read_u32(endian) {
            Ok(v) => v,
            Err(er) => {
                return Err(er);
            },
        };
        let cmdsize = match cursor.read_u32(endian) {
            Ok(v) => v,
            Err(er) => {
                return Err(er);
            },
        };
        let required = min_cmdsize(cmd);
        if cmdsize < required {
            return Err(Error::MalformedCommand { cmd, cmdsize, required });
        }
        let body_offset = base_offset + 8;
        let variant = if is_thread_cmd(cmd) {
            match LcThread::parse(cursor, body_offset, endian) {
                Ok(t) => LcVariant::Thread(t),
                Err(er) => {
                    return Err(er);
                },
            }
        } else if is_linkedit_data_cmd(cmd) {
            match LcLinkEditData::parse(cursor, body_offset, object_file_offset, endian) {
                Ok(l) => LcVariant::LinkEditData(l),
                Err(er) => {
                    return Err(er);
                },
            }
        } else {
            LcVariant::Unknown
        };
        Ok(LoadCommand { cmd, cmdsize, base_offset, endian, variant })
    }

    /// The table of `n` commands decoded from `d`, the first at `off`,
    /// each next one `cmdsize` bytes after the one before — `cmdsize` is
    /// authoritative, whatever a decoder consumed. The first failing
    /// entry fails the whole scan.
    pub open spec fn spec_scan(
        d: Seq<u8>,
        off: u64,
        n: nat,
        object_file_offset: u64,
        e: Endian,
    ) -> Result<Seq<LoadCommand>, Error>
        decreases n,
    {
        if n == 0 {
            Ok(Seq::empty())
        } else {
            match LoadCommand::spec_parse(d, off, object_file_offset, e) {
                Err(er) => Err(er),
                Ok(c) => {
                    match LoadCommand::spec_scan(
                        d,
                        sat_add_u64(off, c.cmdsize as u64),
                        (n - 1) as nat,
                        object_file_offset,
                        e,
                    ) {
                        Err(er) => Err(er),
                        Ok(rest) => Ok(seq![c] + rest),
                    }
                },
            }
        }
    }

    /// Decodes the whole command table: `ncmds` entries, the first at
    /// file offset `base_offset`, in file order. Success yields exactly
    /// `ncmds` entries, unrecognized tags among them as opaque entries.
    pub fn parse_all(
        cursor: &mut Cursor,
        base_offset: u64,
        ncmds: u32,
        object_file_offset: u64,
        endian: Endian,
    ) -> (res: Result<Vec<LoadCommand>, Error>)
        ensures
            final(cursor).bytes() == old(cursor).bytes(),
            (match (res, LoadCommand::spec_scan(
                old(cursor).bytes(),
                base_offset,
                ncmds as nat,
                object_file_offset,
                endian,
            )) {
                (Ok(v), Ok(s)) => v@ == s && v@.len() == ncmds,
                (Err(a), Err(b)) => a == b,
                _ => false,
            }),
    {
        let ghost d = cursor.bytes();
        let mut table: Vec<LoadCommand> = Vec::new();
        let mut off: u64 = base_offset;
        let mut i: u32 = 0;
        proof {
            match LoadCommand::spec_scan(d, base_offset, ncmds as nat, object_file_offset, endian) {
                Ok(s) => {
                    assert(table@ + s =~= s);
                },
                Err(_) => {},
            }
        }
        while i < ncmds
            invariant
                i <= ncmds,
                d == old(cursor).bytes(),
                cursor.bytes() == d,
                table@.len() == i,
                (match LoadCommand::spec_scan(
                    d,
                    off,
                    (ncmds - i) as nat,
                    object_file_offset,
                    endian,
                ) {
                    Ok(rest) => LoadCommand::spec_scan(
                        d,
                        base_offset,
                        ncmds as nat,
                        object_file_offset,
                        endian,
                    ) == Ok::<Seq<LoadCommand>, Error>(table@ + rest),
                    Err(er) => LoadCommand::spec_scan(
                        d,
                        base_offset,
                        ncmds as nat,
                        object_file_offset,
                        endian,
                    ) == Err::<Seq<LoadCommand>, Error>(er),
                }),
            decreases ncmds - i,
        {
            let c = match LoadCommand::parse(cursor, off, object_file_offset, endian) {
                Ok(c) => c,
                Err(er) => {
                    return Err(er);
                },
            };
            let next: u64 = if c.cmdsize as u64 > u64::MAX - off {
                u64::MAX
            } else {
                off + c.cmdsize as u64
            };
            proof {
                let rest_scan = LoadCommand::spec_scan(
                    d,
                    next,
                    (ncmds - i - 1) as nat,
                    object_file_offset,
                    endian,
                );
                match rest_scan {
                    Ok(rest) => {
                        assert(table@ + (seq![c] + rest) =~= (table@ + seq![c]) + rest);
                        assert(table@.push(c) =~= table@ + seq![c]);
                    },
                    Err(_) => {},
                }
            }
            table.push(c);
            off = next;
            i = i + 1;
        }
        proof {
            assert(table@ + Seq::<LoadCommand>::empty() =~= table@);
        }
        Ok(table)
    }
}

/// The byte size of the table entries before entry `i`: the sum of the
/// `cmdsize` values of the commands in front of it.
pub open spec fn spec_prior_size(s: Seq<LoadCommand>, i: int) -> int
    decreases i,
{
    if i <= 0 {
        0
    } else {
        spec_prior_size(s, i - 1) + s[i - 1].cmdsize
    }
}

/// Prefix sums shift across a one-element prepend.
proof fn lemma_prior_size_cons(c: LoadCommand, rest: Seq<LoadCommand>, i: int)
    requires
        1 <= i <= rest.len() + 1,
    ensures
        spec_prior_size(seq![c] + rest, i) == c.cmdsize + spec_prior_size(rest, i - 1),
    decreases i,
{
    let s = seq![c] + rest;
    if i == 1 {
        assert(s[0] == c);
        assert(spec_prior_size(s, 0) == 0);
        assert(spec_prior_size(rest, 0) == 0);
        assert(spec_prior_size(s, 1) == spec_prior_size(s, 0) + s[0].cmdsize);
    } else {
        lemma_prior_size_cons(c, rest, i - 1);
        assert(s[i - 1] == rest[i - 2]);
        assert(spec_prior_size(s, i) == spec_prior_size(s, i - 1) + s[i - 1].cmdsize);
        assert(spec_prior_size(rest, i - 1) == spec_prior_size(rest, i - 2) + rest[i
            - 2].cmdsize);
    }
}

/// Scanning invariant: a successful scan of `n` commands yields exactly
/// `n` entries, and each entry's file offset is the scan's base offset
/// plus the sum of the `cmdsize` values of all entries before it.
pub proof fn lemma_scan_offsets(d: Seq<u8>, off: u64, n: nat, object_file_offset: u64, e: Endian)
    requires
        d.len() <= u64::MAX,
        LoadCommand::spec_scan(d, off, n, object_file_offset, e) is Ok,
    ensures
        ({
            let s = LoadCommand::spec_scan(d, off, n, object_file_offset, e).unwrap();
            &&& s.len() == n
            &&& forall|i: int|
                0 <= i < n ==> s[i].base_offset == off + #[trigger] spec_prior_size(s, i)
        }),
    decreases n,
{
    if n > 0 {
        let c = LoadCommand::spec_parse(d, off, object_file_offset, e).unwrap();
        let next = sat_add_u64(off, c.cmdsize as u64);
        let rest = LoadCommand::spec_scan(
            d,
            next,
            (n - 1) as nat,
            object_file_offset,
            e,
        ).unwrap();
        let s = LoadCommand::spec_scan(d, off, n, object_file_offset, e).unwrap();
        assert(s == seq![c] + rest);
        lemma_scan_offsets(d, next, (n - 1) as nat, object_file_offset, e);
        assert(c.base_offset == off);
        assert(s[0] == c);
        if n > 1 {
            // The next entry was decoded, so its prefix lies inside the
            // data; the offset sum therefore did not saturate.
            assert(next + 8 <= d.len());
            assert(next == off + c.cmdsize);
            assert forall|i: int| 1 <= i < n implies s[i].base_offset == off + #[trigger] spec_prior_size(
                s,
                i,
            ) by {
                assert(s[i] == rest[i - 1]);
                lemma_prior_size_cons(c, rest, i);
            }
        }
    }
}

/// Unknown-tag tolerance: a table entry whose tag no decoder recognizes
/// still decodes, as an opaque entry that preserves the tag and whose
/// `cmdsize` carries the scan past it, whenever its prefix lies inside
/// the data and `cmdsize` covers that prefix.
pub proof fn lemma_unknown_command_preserved(d: Seq<u8>, off: u64, object_file_offset: u64, e: Endian)
    requires
        off + 8 <= d.len(),
        !spec_is_thread_cmd(u32_at(d, off as int, e)),
        !spec_is_linkedit_data_cmd(u32_at(d, off as int, e)),
        u32_at(d, off + 4, e) >= 8,
    ensures
        LoadCommand::spec_parse(d, off, object_file_offset, e) == Ok::<LoadCommand, Error>(
            LoadCommand {
                cmd: u32_at(d, off as int, e),
                cmdsize: u32_at(d, off + 4, e),
                base_offset: off,
                endian: e,
                variant: LcVariant::Unknown,
            },
        ),
{
}

} // verus!
