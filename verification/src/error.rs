use vstd::prelude::*;

verus! {

/// What a multi-step proxy operation can fail with.
#[derive(Debug)]
pub enum OpError<E> {
    /// The data ended before an exact-length read got everything it asked
    /// for.
    UnexpectedEof,
    /// The resource accepted no bytes at all while data remained to be
    /// written.
    WriteZero,
    /// The resource, or the constructor while reopening it, failed with its
    /// own error.
    Resource(E),
}

} // verus!
