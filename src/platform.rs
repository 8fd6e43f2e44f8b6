//! What the library takes from the platform's C library.
use vstd::prelude::*;

verus! {

/// Relies on libc::PATH_MAX, the platform's longest path in bytes with its
/// terminator, which is positive on every platform that libc describes. The
/// record's path and label buffers are this long.
#[verifier::external_body]
pub(crate) fn path_max() -> (r: usize)
    ensures
        r > 0,
{
    libc::PATH_MAX as usize
}

} // verus!
