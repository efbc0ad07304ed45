//! System call descriptors: a number bound to argument and outcome types.
//!
//! A descriptor's `call` turns each argument into its machine word, hands the
//! number and the words to a trap primitive, and decodes the one raw result
//! the primitive gives back. The primitive is passed in by the caller: it is
//! the only part that touches the machine.

use crate::ret::{admitted, outcome, Decode, Ret};
use crate::types::{Arg, Fd, Id, Int, MutPtr, NoRet, Pid, Ptr, Zero};
use vstd::prelude::*;

verus! {

/// A system call, identified by its number in the x86-64 Linux table.
pub trait Syscall {
    /// The call's number.
    spec fn number() -> u64;

    /// Returns the call's number.
    fn num() -> (n: u64)
        ensures
            n == Self::number(),
    ;
}

/// A system call without arguments.
pub trait ZeroArgs: Syscall + Sized {
    /// What the call returns on success.
    type Return: Decode<Size = ()>;

    /// Makes the call through `trap`, which receives the call's number and
    /// returns the raw result.
    fn call<F: FnOnce(u64) -> i64>(self, trap: F) -> (r: Ret<Self::Return>)
        requires
            trap.requires((Self::number(),)),
            forall|raw: i64|
                #[trigger] trap.ensures((Self::number(),), raw) ==> admitted::<Self::Return>(raw),
        ensures
            exists|raw: i64|
                #[trigger] trap.ensures((Self::number(),), raw) && r == outcome::<Self::Return>(
                    raw,
                    (),
                ),
    {
        let raw = trap(Self::num());
        Self::Return::from_i64(raw, ())
    }
}

/// A system call with one argument.
pub trait OneArg: Syscall + Sized {
    /// The type of the argument.
    type Arg0: Arg;

    /// What the call returns on success.
    type Return: Decode<Size = ()>;

    /// Makes the call through `trap`, which receives the call's number and
    /// the argument's word and returns the raw result.
    fn call<F: FnOnce(u64, u64) -> i64>(self, arg0: Self::Arg0, trap: F) -> (r: Ret<Self::Return>)
        requires
            trap.requires((Self::number(), arg0.word())),
            forall|raw: i64|
                #[trigger] trap.ensures((Self::number(), arg0.word()), raw) ==> admitted::<
                    Self::Return,
                >(raw),
        ensures
            exists|raw: i64|
                #[trigger] trap.ensures((Self::number(), arg0.word()), raw) && r == outcome::<
                    Self::Return,
                >(raw, ()),
    {
        let n = Self::num();
        let w0 = arg0.into_word();
        let raw = trap(n, w0);
        Self::Return::from_i64(raw, ())
    }
}

/// A system call with two arguments, of types `A` and `B`, that returns an
/// `R` on success.
pub trait SyscallTwoArgs<A: Arg, B: Arg, R: Decode<Size = ()>>: Syscall + Sized {
    /// Makes the call through `trap`, which receives the call's number and
    /// the arguments' words in order and returns the raw result.
    fn call<F: FnOnce(u64, u64, u64) -> i64>(self, arg0: A, arg1: B, trap: F) -> (r: Ret<R>)
        requires
            trap.requires((Self::number(), arg0.word(), arg1.word())),
            forall|raw: i64|
                #[trigger] trap.ensures((Self::number(), arg0.word(), arg1.word()), raw)
                    ==> admitted::<R>(raw),
        ensures
            exists|raw: i64|
                #[trigger] trap.ensures((Self::number(), arg0.word(), arg1.word()), raw) && r
                    == outcome::<R>(raw, ()),
    {
        let n = Self::num();
        let w0 = arg0.into_word();
        let w1 = arg1.into_word();
        let raw = trap(n, w0, w1);
        R::from_i64(raw, ())
    }
}

/// `sched_yield`: gives up the processor.
pub struct SchedYield;

impl Syscall for SchedYield {
    open spec fn number() -> u64 {
        24
    }

    fn num() -> (n: u64) {
        24
    }
}

impl ZeroArgs for SchedYield {
    type Return = Zero;
}

/// `pause`: sleeps until a signal arrives; it returns only with an error.
pub struct Pause;

impl Syscall for Pause {
    open spec fn number() -> u64 {
        34
    }

    fn num() -> (n: u64) {
        34
    }
}

impl ZeroArgs for Pause {
    type Return = NoRet;
}

/// `getpid`: the calling process's identifier.
pub struct Getpid;

impl Syscall for Getpid {
    open spec fn number() -> u64 {
        39
    }

    fn num() -> (n: u64) {
        39
    }
}

impl ZeroArgs for Getpid {
    type Return = Pid;
}

/// `fork`: creates a child process; the child sees zero, the parent the child's identifier.
pub struct Fork;

impl Syscall for Fork {
    open spec fn number() -> u64 {
        57
    }

    fn num() -> (n: u64) {
        57
    }
}

impl ZeroArgs for Fork {
    type Return = Pid;
}

/// `vfork`: creates a child that shares the parent's memory until it execs or exits.
pub struct Vfork;

impl Syscall for Vfork {
    open spec fn number() -> u64 {
        58
    }

    fn num() -> (n: u64) {
        58
    }
}

impl ZeroArgs for Vfork {
    type Return = Pid;
}

/// `getuid`: the real user identifier.
pub struct Getuid;

impl Syscall for Getuid {
    open spec fn number() -> u64 {
        102
    }

    fn num() -> (n: u64) {
        102
    }
}

impl ZeroArgs for Getuid {
    type Return = Id;
}

/// `getgid`: the real group identifier.
pub struct Getgid;

impl Syscall for Getgid {
    open spec fn number() -> u64 {
        104
    }

    fn num() -> (n: u64) {
        104
    }
}

impl ZeroArgs for Getgid {
    type Return = Id;
}

/// `geteuid`: the effective user identifier.
pub struct Geteuid;

impl Syscall for Geteuid {
    open spec fn number() -> u64 {
        107
    }

    fn num() -> (n: u64) {
        107
    }
}

impl ZeroArgs for Geteuid {
    type Return = Id;
}

/// `getegid`: the effective group identifier.
pub struct Getegid;

impl Syscall for Getegid {
    open spec fn number() -> u64 {
        108
    }

    fn num() -> (n: u64) {
        108
    }
}

impl ZeroArgs for Getegid {
    type Return = Id;
}

/// `getppid`: the parent process's identifier.
pub struct Getppid;

impl Syscall for Getppid {
    open spec fn number() -> u64 {
        110
    }

    fn num() -> (n: u64) {
        110
    }
}

impl ZeroArgs for Getppid {
    type Return = Pid;
}

/// `getpgrp`: the calling process's process group.
pub struct Getpgrp;

impl Syscall for Getpgrp {
    open spec fn number() -> u64 {
        111
    }

    fn num() -> (n: u64) {
        111
    }
}

impl ZeroArgs for Getpgrp {
    type Return = Pid;
}

/// `setsid`: starts a new session and returns its identifier.
pub struct Setsid;

impl Syscall for Setsid {
    open spec fn number() -> u64 {
        112
    }

    fn num() -> (n: u64) {
        112
    }
}

impl ZeroArgs for Setsid {
    type Return = Pid;
}

/// `munlockall`: unlocks all of the process's pages.
pub struct Munlockall;

impl Syscall for Munlockall {
    open spec fn number() -> u64 {
        152
    }

    fn num() -> (n: u64) {
        152
    }
}

impl ZeroArgs for Munlockall {
    type Return = Zero;
}

/// `vhangup`: hangs up the controlling terminal.
pub struct Vhangup;

impl Syscall for Vhangup {
    open spec fn number() -> u64 {
        153
    }

    fn num() -> (n: u64) {
        153
    }
}

impl ZeroArgs for Vhangup {
    type Return = Zero;
}

/// `gettid`: the calling thread's identifier.
pub struct Gettid;

impl Syscall for Gettid {
    open spec fn number() -> u64 {
        186
    }

    fn num() -> (n: u64) {
        186
    }
}

impl ZeroArgs for Gettid {
    type Return = Pid;
}

/// `inotify_init`: a new inotify instance.
pub struct InotifyInit;

impl Syscall for InotifyInit {
    open spec fn number() -> u64 {
        253
    }

    fn num() -> (n: u64) {
        253
    }
}

impl ZeroArgs for InotifyInit {
    type Return = Fd;
}

/// `close`: releases a file descriptor.
pub struct Close;

impl Syscall for Close {
    open spec fn number() -> u64 {
        3
    }

    fn num() -> (n: u64) {
        3
    }
}

impl OneArg for Close {
    type Arg0 = Fd;

    type Return = Zero;
}

/// `brk`: moves the program break; returns the break now in force.
pub struct Brk;

impl Syscall for Brk {
    open spec fn number() -> u64 {
        12
    }

    fn num() -> (n: u64) {
        12
    }
}

impl OneArg for Brk {
    type Arg0 = Ptr;

    type Return = Int;
}

/// `pipe`: writes the two ends of a new pipe into the given memory.
pub struct Pipe;

impl Syscall for Pipe {
    open spec fn number() -> u64 {
        22
    }

    fn num() -> (n: u64) {
        22
    }
}

impl OneArg for Pipe {
    type Arg0 = MutPtr;

    type Return = Zero;
}

/// `dup`: a new descriptor for the same open file.
pub struct Dup;

impl Syscall for Dup {
    open spec fn number() -> u64 {
        32
    }

    fn num() -> (n: u64) {
        32
    }
}

impl OneArg for Dup {
    type Arg0 = Fd;

    type Return = Fd;
}

/// `alarm`: schedules a signal in the given number of seconds; returns the
/// seconds that were left on the previous alarm.
pub struct Alarm;

impl Syscall for Alarm {
    open spec fn number() -> u64 {
        37
    }

    fn num() -> (n: u64) {
        37
    }
}

impl OneArg for Alarm {
    type Arg0 = Int;

    type Return = Int;
}

/// `exit`: ends the calling thread with the given status.
pub struct Exit;

impl Syscall for Exit {
    open spec fn number() -> u64 {
        60
    }

    fn num() -> (n: u64) {
        60
    }
}

impl OneArg for Exit {
    type Arg0 = Int;

    type Return = NoRet;
}

/// `uname`: writes the system's names into the given memory.
pub struct Uname;

impl Syscall for Uname {
    open spec fn number() -> u64 {
        63
    }

    fn num() -> (n: u64) {
        63
    }
}

impl OneArg for Uname {
    type Arg0 = MutPtr;

    type Return = Zero;
}

/// `shmdt`: detaches the shared memory segment at the given address.
pub struct Shmdt;

impl Syscall for Shmdt {
    open spec fn number() -> u64 {
        67
    }

    fn num() -> (n: u64) {
        67
    }
}

impl OneArg for Shmdt {
    type Arg0 = Ptr;

    type Return = Zero;
}

/// `fsync`: flushes a file's data and metadata to storage.
pub struct Fsync;

impl Syscall for Fsync {
    open spec fn number() -> u64 {
        74
    }

    fn num() -> (n: u64) {
        74
    }
}

impl OneArg for Fsync {
    type Arg0 = Fd;

    type Return = Zero;
}

/// `fdatasync`: flushes a file's data to storage.
pub struct Fdatasync;

impl Syscall for Fdatasync {
    open spec fn number() -> u64 {
        75
    }

    fn num() -> (n: u64) {
        75
    }
}

impl OneArg for Fdatasync {
    type Arg0 = Fd;

    type Return = Zero;
}

/// `dup2`: makes the second descriptor a copy of the first.
pub struct Dup2;

impl Syscall for Dup2 {
    open spec fn number() -> u64 {
        33
    }

    fn num() -> (n: u64) {
        33
    }
}

impl SyscallTwoArgs<Fd, Fd, Fd> for Dup2 {}

/// `kill`: sends the given signal to a process, or to a process group when
/// the first argument is negative.
pub struct Kill;

impl Syscall for Kill {
    open spec fn number() -> u64 {
        62
    }

    fn num() -> (n: u64) {
        62
    }
}

impl SyscallTwoArgs<Int, Int, Zero> for Kill {}

} // verus!
