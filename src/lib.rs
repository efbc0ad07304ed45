//! Typed access to Linux x86-64 system calls.
//!
//! Each system call is a descriptor: a number, the types of its arguments and
//! the type of its outcome. Arguments become machine words, the trap primitive
//! turns them into one raw signed result, and that result is decoded into a
//! [`Ret`]: a success value of the declared type, or the kernel's error code.

mod errno;
mod lemmas;
mod ret;
mod syscalls;
mod types;

pub use errno::{errno_of, errno_of_raw, is_errno, raw_is_errno, MAX_ERRNO};
pub use lemmas::{
    lemma_fd_round_trip, lemma_id_round_trip, lemma_identifier_is_reported_value,
    lemma_int_round_trip, lemma_pid_round_trip, lemma_same_report_same_outcome,
    lemma_zero_only_outcomes,
};
pub use ret::{admitted, outcome, Decode, Ret};
pub use types::{Arg, Fd, Id, Int, MutPtr, NoRet, Pid, Ptr, Zero};
pub use syscalls::{
    Alarm, Brk, Close, Dup, Dup2, Exit, Fdatasync, Fork, Fsync, Getegid, Geteuid, Getgid, Getpgrp,
    Getpid, Getppid, Gettid, Getuid, InotifyInit, Kill, Munlockall, OneArg, Pause, Pipe, SchedYield,
    Setsid, Shmdt, Syscall, SyscallTwoArgs, Uname, Vfork, Vhangup, ZeroArgs,
};
