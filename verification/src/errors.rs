use vstd::prelude::*;

verus! {

/// The kinds of I/O failure that the pipe logic tells apart.
///
/// A caller that performed the I/O maps `std::io::ErrorKind` onto this: the
/// kinds named here one for one, every other kind onto `Other`.
#[derive(Clone, Copy, Debug, PartialEq, Eq, Structural)]
pub enum IoErrorKind {
    NotFound,
    WouldBlock,
    Interrupted,
    UnexpectedEof,
    WriteZero,
    Other,
}

} // verus!
