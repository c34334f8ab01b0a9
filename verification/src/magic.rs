use vstd::prelude::*;

use crate::endian::Endian;

verus! {

/// Magic value of a 32-bit Mach-O file, as read big-endian.
pub const MAGIC_32: u32 = 0xFEED_FACE;

/// Magic value of a 32-bit Mach-O file whose fields are byte-swapped
/// relative to big-endian reading, as read big-endian.
pub const MAGIC_32_REVERSE: u32 = 0xCEFA_EDFE;

/// Magic value of a 64-bit Mach-O file, as read big-endian.
pub const MAGIC_64: u32 = 0xFEED_FACF;

/// Magic value of a 64-bit Mach-O file whose fields are byte-swapped
/// relative to big-endian reading, as read big-endian.
pub const MAGIC_64_REVERSE: u32 = 0xCFFA_EDFE;

/// The leading magic of a Mach-O file. It fixes, once, for the whole file:
/// the byte order of every later read, the word width, and whether the
/// header carries a trailing `reserved` word (64-bit forms only).
#[derive(Clone, Copy, Debug, PartialEq, Eq, Structural)]
pub enum Magic {
    Bin32,
    Bin32Reverse,
    Bin64,
    Bin64Reverse,
}

impl Magic {
    /// The magic recognized in `value`, a `u32` read big-endian from the
    /// first four bytes of a file; `None` when no known magic matches.
    pub open spec fn spec_from_value(value: u32) -> Option<Magic> {
        if value == MAGIC_32 {
            Some(Magic::Bin32)
        } else if value == MAGIC_32_REVERSE {
            Some(Magic::Bin32Reverse)
        } else if value == MAGIC_64 {
            Some(Magic::Bin64)
        } else if value == MAGIC_64_REVERSE {
            Some(Magic::Bin64Reverse)
        } else {
            None
        }
    }

    /// Recognizes a magic in `value` as read big-endian.
    pub fn from_value(value: u32) -> (res: Option<Magic>)
        ensures
            res == Magic::spec_from_value(value),
    {
        if value == MAGIC_32 {
            Some(Magic::Bin32)
        } else if value == MAGIC_32_REVERSE {
            Some(Magic::Bin32Reverse)
        } else if value == MAGIC_64 {
            Some(Magic::Bin64)
        } else if value == MAGIC_64_REVERSE {
            Some(Magic::Bin64Reverse)
        } else {
            None
        }
    }

    /// The `u32` this magic reads as big-endian.
    pub open spec fn spec_value(self) -> u32 {
        match self {
            Magic::Bin32 => MAGIC_32,
            Magic::Bin32Reverse => MAGIC_32_REVERSE,
            Magic::Bin64 => MAGIC_64,
            Magic::Bin64Reverse => MAGIC_64_REVERSE,
        }
    }

    /// The `u32` this magic reads as big-endian.
    pub fn value(self) -> (v: u32)
        ensures
            v == self.spec_value(),
    {
        match self {
            Magic::Bin32 => MAGIC_32,
            Magic::Bin32Reverse => MAGIC_32_REVERSE,
            Magic::Bin64 => MAGIC_64,
            Magic::Bin64Reverse => MAGIC_64_REVERSE,
        }
    }

    /// Whether this magic marks a 64-bit file, whose header carries a
    /// trailing `reserved` word.
    pub open spec fn spec_is_64(self) -> bool {
        self == Magic::Bin64 || self == Magic::Bin64Reverse
    }

    /// Whether this magic marks a 64-bit file.
    pub fn is_64(self) -> (r: bool)
        ensures
            r == self.spec_is_64(),
    {
        match self {
            Magic::Bin64 => true,
            Magic::Bin64Reverse => true,
            _ => false,
        }
    }

    /// Whether this magic marks a byte-swapped (little-endian) file.
    pub open spec fn spec_is_reverse(self) -> bool {
        self == Magic::Bin32Reverse || self == Magic::Bin64Reverse
    }

    /// Whether this magic marks a byte-swapped (little-endian) file.
    pub fn is_reverse(self) -> (r: bool)
        ensures
            r == self.spec_is_reverse(),
    {
        match self {
            Magic::Bin32Reverse => true,
            Magic::Bin64Reverse => true,
            _ => false,
        }
    }

    /// The byte order this magic fixes for every later read in the file.
    pub open spec fn spec_endian(self) -> Endian {
        if self.spec_is_reverse() {
            Endian::Little
        } else {
            Endian::Big
        }
    }

    /// The byte order this magic fixes for every later read in the file.
    pub fn endian(self) -> (e: Endian)
        ensures
            e == self.spec_endian(),
    {
        if self.is_reverse() {
            Endian::Little
        } else {
            Endian::Big
        }
    }

    /// Recognition and reading back are mutually inverse: each known magic
    /// is recognized exactly from its own value, and recognition succeeds
    /// only on the four known values.
    pub proof fn lemma_value_round_trip()
        ensures
            forall|m: Magic| Magic::spec_from_value(m.spec_value()) == Some(m),
            forall|v: u32|
                (#[trigger] Magic::spec_from_value(v)) is Some
                    ==> Magic::spec_from_value(v).unwrap().spec_value() == v,
    {
    }
}

} // verus!
