use vstd::prelude::*;

verus! {

/// Byte order used to decode the multi-byte integer fields of a file.
/// A file's order is fixed by its magic value and never changes afterwards.
#[derive(Clone, Copy, Debug, PartialEq, Eq, Structural)]
pub enum Endian {
    Big,
    Little,
}

} // verus!
