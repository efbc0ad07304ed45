//! Facts about decoding that hold for every raw result.

use crate::errno::{errno_of, is_errno, MAX_ERRNO};
use crate::ret::{admitted, outcome, Decode, Ret};
use crate::types::{Arg, Fd, Id, Int, Pid, Zero};
use vstd::prelude::*;

verus! {

/// An identifier call decodes to exactly the number the kernel reported: a
/// process or resource identifier read back from the outcome equals the raw
/// result, so it agrees with any other way of asking the kernel for it.
pub proof fn lemma_identifier_is_reported_value(raw: i64)
    requires
        0 <= raw,
    ensures
        outcome::<Pid>(raw, ()) == Ret::Success(Pid(raw as u64)),
        outcome::<Id>(raw, ()) == Ret::Success(Id(raw as u64)),
        (raw as u64) == raw,
{
}

/// A call whose only success is zero yields the zero outcome or an error,
/// and nothing else: the raw results it admits are zero and the error range,
/// and every other raw result is rejected as a wrongly declared call.
pub proof fn lemma_zero_only_outcomes(raw: i64)
    ensures
        admitted::<Zero>(raw) <==> (raw == 0 || is_errno(raw)),
        raw > 0 || raw < -MAX_ERRNO ==> !admitted::<Zero>(raw),
        raw == 0 ==> outcome::<Zero>(raw, ()) == Ret::Success(Zero),
        is_errno(raw) ==> outcome::<Zero>(raw, ()) == Ret::<Zero>::Error(errno_of((-raw) as i32)),
{
}

/// A descriptor handed back by the kernel goes back to it as the same word,
/// and a descriptor passed as a word and reported back decodes to itself.
pub proof fn lemma_fd_round_trip(raw: i64, fd: Fd)
    requires
        0 <= raw,
        fd.0 <= i64::MAX,
    ensures
        <Fd as Decode>::success(raw, ()).word() == raw,
        outcome::<Fd>(fd.word() as i64, ()) == Ret::Success(fd),
{
}

/// The same round trip for process identifiers.
pub proof fn lemma_pid_round_trip(raw: i64, pid: Pid)
    requires
        0 <= raw,
        pid.0 <= i64::MAX,
    ensures
        <Pid as Decode>::success(raw, ()).word() == raw,
        outcome::<Pid>(pid.word() as i64, ()) == Ret::Success(pid),
{
}

/// The same round trip for resource identifiers.
pub proof fn lemma_id_round_trip(raw: i64, id: Id)
    requires
        0 <= raw,
        id.0 <= i64::MAX,
    ensures
        <Id as Decode>::success(raw, ()).word() == raw,
        outcome::<Id>(id.word() as i64, ()) == Ret::Success(id),
{
}

/// The same round trip for plain integers that a call reports as a success.
pub proof fn lemma_int_round_trip(raw: i64, n: Int)
    requires
        0 <= raw,
        0 <= n.0,
    ensures
        <Int as Decode>::success(raw, ()).word() == raw,
        outcome::<Int>(n.word() as i64, ()) == Ret::Success(n),
{
}

/// Decoding depends on the raw result alone: two calls to which the kernel
/// reports the same value, as it does for an idempotent call with no change
/// of state in between, have the same outcome.
pub proof fn lemma_same_report_same_outcome<R: Decode>(raw1: i64, raw2: i64, size: R::Size)
    requires
        raw1 == raw2,
    ensures
        outcome::<R>(raw1, size) == outcome::<R>(raw2, size),
        admitted::<R>(raw1) == admitted::<R>(raw2),
{
}

} // verus!
