//! Decoding a raw trap result into the outcome of a system call.

use crate::errno::{errno_of, errno_of_raw, is_errno, raw_is_errno};
use nix::errno::Errno;
use vstd::prelude::*;

verus! {

/// What a system call returned: a value of its declared type, or an error.
#[derive(Debug, PartialEq, Eq)]
pub enum Ret<T> {
    Success(T),
    Error(Errno),
}

/// A type that a successful raw trap result can be decoded into.
pub trait Decode: Sized {
    /// What the decoding needs besides the raw result (a length, for memory).
    type Size;

    /// The non-negative raw results that stand for a value of this type.
    spec fn accepts(raw: i64) -> bool;

    /// The value that an accepted raw result stands for.
    spec fn success(raw: i64, size: Self::Size) -> Self;

    /// Whether `raw` is a result this type can be decoded from.
    fn admits(raw: i64) -> (b: bool)
        ensures
            b == (is_errno(raw) || (raw >= 0 && Self::accepts(raw))),
    ;

    /// Decodes a raw trap result.
    fn from_i64(raw: i64, size: Self::Size) -> (r: Ret<Self>)
        requires
            is_errno(raw) || (raw >= 0 && Self::accepts(raw)),
        ensures
            is_errno(raw) ==> r == Ret::<Self>::Error(errno_of((-raw) as i32)),
            !is_errno(raw) ==> r == Ret::Success(Self::success(raw, size)),
    ;
}

/// A raw result is admitted for `R` if it is an error code or a success that
/// `R` accepts; anything else means `R` was the wrong type for the call.
pub open spec fn admitted<R: Decode>(raw: i64) -> bool {
    is_errno(raw) || (raw >= 0 && R::accepts(raw))
}

/// The outcome that an admitted raw result decodes to.
pub open spec fn outcome<R: Decode>(raw: i64, size: R::Size) -> Ret<R> {
    if is_errno(raw) {
        Ret::Error(errno_of((-raw) as i32))
    } else {
        Ret::Success(R::success(raw, size))
    }
}

/// Whether `raw` is admitted by a type that accepts exactly `success`.
pub(crate) fn admits_with(raw: i64, success: bool) -> (b: bool)
    ensures
        b == (is_errno(raw) || (raw >= 0 && success)),
{
    raw_is_errno(raw) || (raw >= 0 && success)
}

/// The error outcome of a raw result in the error range.
pub(crate) fn error_of<T>(raw: i64) -> (r: Ret<T>)
    requires
        is_errno(raw),
    ensures
        r == Ret::<T>::Error(errno_of((-raw) as i32)),
{
    Ret::Error(errno_of_raw(raw))
}

} // verus!
