use vstd::prelude::*;

verus! {

/// A decode or extraction failure. Every variant carries enough context
/// (offset, requested length, declared sizes) to diagnose a corrupt or
/// truncated file; rendering messages is left to the caller.
#[derive(Clone, Copy, Debug, PartialEq, Eq, Structural)]
pub enum Error {
    /// The first four bytes of the file match no known Mach-O magic.
    UnknownMagic { value: u32 },
    /// A read of `count` bytes starting at `offset` reaches past the end
    /// of the file, whose length is `available`.
    ReadOutOfBounds { offset: u64, count: u64, available: u64 },
    /// A load command declares a `cmdsize` smaller than the fixed fields
    /// of its kind require.
    MalformedCommand { cmd: u32, cmdsize: u32, required: u32 },
}

} // verus!
