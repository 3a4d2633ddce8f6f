use vstd::prelude::*;

use crate::errors::IoErrorKind;

verus! {

/// The raw OS error that opening a FIFO for writing gives while no reader
/// has it open (`ENXIO` on Linux).
pub const NO_READER_OS_ERROR: i32 = 6i32;

/// Whether a failed attempt to open a pipe for writing is to be retried: the
/// pipe does not exist yet, or nobody reads from it yet.
pub fn should_retry_open(kind: IoErrorKind, raw_os_error: Option<i32>) -> (retry: bool)
    ensures
        retry == (kind == IoErrorKind::NotFound || raw_os_error == Some(NO_READER_OS_ERROR)),
{
    let not_found = match kind {
        IoErrorKind::NotFound => true,
        _ => false,
    };
    let no_reader = match raw_os_error {
        Some(code) => code == NO_READER_OS_ERROR,
        None => false,
    };
    not_found || no_reader
}

} // verus!
