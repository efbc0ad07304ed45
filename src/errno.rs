//! The kernel's error codes, as they appear in a raw trap result.

use nix::errno::Errno;
use vstd::prelude::*;

verus! {

/// The largest error code the kernel reports through a trap result.
pub const MAX_ERRNO: i64 = 4095;

/// A raw result in `-MAX_ERRNO ..= -1` is the negation of an error code.
pub open spec fn is_errno(raw: i64) -> bool {
    -MAX_ERRNO <= raw && raw < 0
}

/// nix's error code, carried as it is in the error outcome of a call.
#[verifier::external_type_specification]
#[verifier::external_body]
pub struct ExErrno(Errno);

/// The error that nix names by a raw error number.
pub uninterp spec fn errno_of(code: i32) -> Errno;

/// Relies on nix's `Errno::from_raw`: the error named by a raw error number.
#[verifier::external_body]
fn errno_from_raw(code: i32) -> (e: Errno)
    ensures
        e == errno_of(code),
{
    Errno::from_raw(code)
}

/// Whether a raw trap result reports an error.
pub fn raw_is_errno(raw: i64) -> (b: bool)
    ensures
        b == is_errno(raw),
{
    -MAX_ERRNO <= raw && raw < 0
}

/// The error that a raw trap result in the error range reports.
pub fn errno_of_raw(raw: i64) -> (e: Errno)
    requires
        is_errno(raw),
    ensures
        e == errno_of((-raw) as i32),
{
    errno_from_raw((-raw) as i32)
}

} // verus!
