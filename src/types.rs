//! The argument and outcome types of system calls.

use crate::errno::{is_errno, raw_is_errno};
use crate::ret::{admits_with, error_of, Decode, Ret};
use vstd::prelude::*;

verus! {

/// A value that is handed to the kernel as one machine word.
pub trait Arg: Sized {
    /// The machine word that stands for this value.
    spec fn word(&self) -> u64;

    /// Converts the value into its machine word.
    fn into_word(self) -> (w: u64)
        ensures
            w == self.word(),
    ;
}

/// A file descriptor.
#[derive(Clone, Copy, Debug, PartialEq, Eq)]
pub struct Fd(pub u64);

/// A numeric identifier of a kernel resource (a user, a group, a session).
#[derive(Clone, Copy, Debug, PartialEq, Eq)]
pub struct Id(pub u64);

/// A process, thread, process group or session identifier.
#[derive(Clone, Copy, Debug, PartialEq, Eq)]
pub struct Pid(pub u64);

/// A plain signed integer.
#[derive(Clone, Copy, Debug, PartialEq, Eq)]
pub struct Int(pub i64);

/// Memory that the kernel reads: `len` bytes from address `addr`.
#[derive(Clone, Copy, Debug, PartialEq, Eq)]
pub struct Ptr {
    pub addr: u64,
    pub len: usize,
}

/// Memory that the kernel writes: `len` bytes from address `addr`.
#[derive(Clone, Copy, Debug, PartialEq, Eq)]
pub struct MutPtr {
    pub addr: u64,
    pub len: usize,
}

/// No value: passed as zero, and the only success of calls that report
/// nothing but success or failure.
#[derive(Clone, Copy, Debug, PartialEq, Eq)]
pub struct Zero;

/// The outcome type of calls that never return on success.
#[derive(Clone, Copy, Debug, PartialEq, Eq)]
pub struct NoRet;

impl Arg for Fd {
    open spec fn word(&self) -> u64 {
        self.0
    }

    fn into_word(self) -> (w: u64) {
        self.0
    }
}

impl Arg for Id {
    open spec fn word(&self) -> u64 {
        self.0
    }

    fn into_word(self) -> (w: u64) {
        self.0
    }
}

impl Arg for Pid {
    open spec fn word(&self) -> u64 {
        self.0
    }

    fn into_word(self) -> (w: u64) {
        self.0
    }
}

impl Arg for Int {
    open spec fn word(&self) -> u64 {
        self.0 as u64
    }

    fn into_word(self) -> (w: u64) {
        self.0 as u64
    }
}

impl Arg for Ptr {
    open spec fn word(&self) -> u64 {
        self.addr
    }

    fn into_word(self) -> (w: u64) {
        self.addr
    }
}

impl Arg for MutPtr {
    open spec fn word(&self) -> u64 {
        self.addr
    }

    fn into_word(self) -> (w: u64) {
        self.addr
    }
}

impl Arg for Zero {
    open spec fn word(&self) -> u64 {
        0
    }

    fn into_word(self) -> (w: u64) {
        0
    }
}

impl Decode for NoRet {
    type Size = ();

    open spec fn accepts(raw: i64) -> bool {
        false
    }

    open spec fn success(raw: i64, size: ()) -> NoRet {
        NoRet
    }

    fn admits(raw: i64) -> (b: bool) {
        admits_with(raw, false)
    }

    fn from_i64(raw: i64, size: ()) -> (r: Ret<NoRet>) {
        error_of(raw)
    }
}

impl Decode for Zero {
    type Size = ();

    open spec fn accepts(raw: i64) -> bool {
        raw == 0
    }

    open spec fn success(raw: i64, size: ()) -> Zero {
        Zero
    }

    fn admits(raw: i64) -> (b: bool) {
        admits_with(raw, raw == 0)
    }

    fn from_i64(raw: i64, size: ()) -> (r: Ret<Zero>) {
        if raw_is_errno(raw) {
            error_of(raw)
        } else {
            Ret::Success(Zero)
        }
    }
}

impl Decode for Int {
    type Size = ();

    open spec fn accepts(raw: i64) -> bool {
        true
    }

    open spec fn success(raw: i64, size: ()) -> Int {
        Int(raw)
    }

    fn admits(raw: i64) -> (b: bool) {
        admits_with(raw, true)
    }

    fn from_i64(raw: i64, size: ()) -> (r: Ret<Int>) {
        if raw_is_errno(raw) {
            error_of(raw)
        } else {
            Ret::Success(Int(raw))
        }
    }
}

impl Decode for Id {
    type Size = ();

    open spec fn accepts(raw: i64) -> bool {
        true
    }

    open spec fn success(raw: i64, size: ()) -> Id {
        Id(raw as u64)
    }

    fn admits(raw: i64) -> (b: bool) {
        admits_with(raw, true)
    }

    fn from_i64(raw: i64, size: ()) -> (r: Ret<Id>) {
        if raw_is_errno(raw) {
            error_of(raw)
        } else {
            Ret::Success(Id(raw as u64))
        }
    }
}

impl Decode for Pid {
    type Size = ();

    open spec fn accepts(raw: i64) -> bool {
        true
    }

    open spec fn success(raw: i64, size: ()) -> Pid {
        Pid(raw as u64)
    }

    fn admits(raw: i64) -> (b: bool) {
        admits_with(raw, true)
    }

    fn from_i64(raw: i64, size: ()) -> (r: Ret<Pid>) {
        if raw_is_errno(raw) {
            error_of(raw)
        } else {
            Ret::Success(Pid(raw as u64))
        }
    }
}

impl Decode for Fd {
    type Size = ();

    open spec fn accepts(raw: i64) -> bool {
        true
    }

    open spec fn success(raw: i64, size: ()) -> Fd {
        Fd(raw as u64)
    }

    fn admits(raw: i64) -> (b: bool) {
        admits_with(raw, true)
    }

    fn from_i64(raw: i64, size: ()) -> (r: Ret<Fd>) {
        if raw_is_errno(raw) {
            error_of(raw)
        } else {
            Ret::Success(Fd(raw as u64))
        }
    }
}

impl Decode for Ptr {
    /// The number of bytes the call made available at the returned address.
    type Size = usize;

    open spec fn accepts(raw: i64) -> bool {
        true
    }

    open spec fn success(raw: i64, size: usize) -> Ptr {
        Ptr { addr: raw as u64, len: size }
    }

    fn admits(raw: i64) -> (b: bool) {
        admits_with(raw, true)
    }

    fn from_i64(raw: i64, size: usize) -> (r: Ret<Ptr>) {
        if raw_is_errno(raw) {
            error_of(raw)
        } else {
            Ret::Success(Ptr { addr: raw as u64, len: size })
        }
    }
}

} // verus!
