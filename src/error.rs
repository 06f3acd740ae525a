use vstd::prelude::*;

verus! {

/// Everything that can go wrong while decoding a LAS file.
#[derive(Debug, Clone, Copy, PartialEq, Eq, Structural)]
pub enum LasError {
    /// An underlying read or open failed (raised by the caller's I/O layer).
    Io,
    /// The file signature is not `LASF`.
    BadSignature,
    /// A positioned read extended past the end of the byte region.
    UnexpectedEof,
    /// The header declares a point format this decoder does not implement.
    UnsupportedPointFormat(u8),
    /// Header values contradict each other.
    InconsistentHeader,
}

} // verus!
