use nix::errno::Errno;
use typed_syscall::{
    errno_of_raw, raw_is_errno, Arg, Decode, Fd, Id, Int, MutPtr, NoRet, Pid, Ptr, Ret, Zero,
    MAX_ERRNO,
};

#[test]
fn zero_decodes_zero_as_success() {
    assert_eq!(Zero::from_i64(0, ()), Ret::Success(Zero));
}

#[test]
fn zero_decodes_negative_as_error() {
    assert_eq!(Zero::from_i64(-9, ()), Ret::Error(Errno::EBADF));
    assert_eq!(Zero::from_i64(-22, ()), Ret::Error(Errno::EINVAL));
}

#[test]
fn zero_admits_only_zero_and_error_codes() {
    assert!(Zero::admits(0));
    assert!(Zero::admits(-1));
    assert!(Zero::admits(-MAX_ERRNO));
    assert!(!Zero::admits(1));
    assert!(!Zero::admits(i64::MAX));
    assert!(!Zero::admits(-MAX_ERRNO - 1));
    assert!(!Zero::admits(i64::MIN));
}

#[test]
fn no_ret_admits_only_error_codes() {
    assert!(!NoRet::admits(0));
    assert!(!NoRet::admits(5));
    assert!(NoRet::admits(-4));
    assert_eq!(NoRet::from_i64(-4, ()), Ret::Error(Errno::EINTR));
}

#[test]
fn identifiers_decode_to_the_reported_number() {
    assert_eq!(Pid::from_i64(4321, ()), Ret::Success(Pid(4321)));
    assert_eq!(Pid::from_i64(0, ()), Ret::Success(Pid(0)));
    assert_eq!(Id::from_i64(1000, ()), Ret::Success(Id(1000)));
    assert_eq!(Id::from_i64(-1, ()), Ret::Error(Errno::EPERM));
    assert!(Id::admits(i64::MAX));
    assert!(!Id::admits(-MAX_ERRNO - 1));
}

#[test]
fn descriptors_decode_to_the_reported_number() {
    assert_eq!(Fd::from_i64(7, ()), Ret::Success(Fd(7)));
    assert_eq!(Fd::from_i64(-24, ()), Ret::Error(Errno::EMFILE));
}

#[test]
fn integers_decode_verbatim() {
    assert_eq!(Int::from_i64(0, ()), Ret::Success(Int(0)));
    assert_eq!(Int::from_i64(42, ()), Ret::Success(Int(42)));
    assert_eq!(Int::from_i64(i64::MAX, ()), Ret::Success(Int(i64::MAX)));
    assert_eq!(Int::from_i64(-2, ()), Ret::Error(Errno::ENOENT));
}

#[test]
fn memory_decodes_with_the_given_length() {
    assert_eq!(Ptr::from_i64(0x7000, 64), Ret::Success(Ptr { addr: 0x7000, len: 64 }));
    assert_eq!(Ptr::from_i64(-12, 64), Ret::Error(Errno::ENOMEM));
}

#[test]
fn largest_error_code_decodes_to_an_error() {
    assert_eq!(Int::from_i64(-MAX_ERRNO, ()), Ret::Error(Errno::from_raw(4095)));
    assert!(matches!(Int::from_i64(-MAX_ERRNO, ()), Ret::Error(_)));
}

#[test]
fn arguments_become_machine_words() {
    assert_eq!(Fd(3).into_word(), 3);
    assert_eq!(Id(1000).into_word(), 1000);
    assert_eq!(Pid(77).into_word(), 77);
        assert_eq!(Int(-2).into_word(), u64::MAX - 1);
    assert_eq!(Int(5).into_word(), 5);
    assert_eq!(Ptr { addr: 0x1000, len: 8 }.into_word(), 0x1000);
    assert_eq!(MutPtr { addr: 0x2000, len: 16 }.into_word(), 0x2000);
    assert_eq!(Zero.into_word(), 0);
}

#[test]
fn descriptor_word_round_trip() {
    let fd = Fd(12);
    let raw = fd.into_word() as i64;
    assert_eq!(Fd::from_i64(raw, ()), Ret::Success(Fd(12)));
    match Fd::from_i64(9, ()) {
        Ret::Success(back) => assert_eq!(back.into_word(), 9),
        Ret::Error(e) => panic!("unexpected error {:?}", e),
    }
}

#[test]
fn identifier_word_round_trip() {
    let raw = Pid(31337).into_word() as i64;
    assert_eq!(Pid::from_i64(raw, ()), Ret::Success(Pid(31337)));
    let raw = Id(65534).into_word() as i64;
    assert_eq!(Id::from_i64(raw, ()), Ret::Success(Id(65534)));
}

#[test]
fn same_raw_result_gives_same_outcome() {
    assert_eq!(Pid::from_i64(812, ()), Pid::from_i64(812, ()));
    assert_eq!(Zero::from_i64(-13, ()), Zero::from_i64(-13, ()));
}

#[test]
fn error_range_is_recognised_uniformly() {
    assert!(raw_is_errno(-1));
    assert!(raw_is_errno(-MAX_ERRNO));
    assert!(!raw_is_errno(0));
    assert!(!raw_is_errno(3));
    assert!(!raw_is_errno(-MAX_ERRNO - 1));
    assert_eq!(errno_of_raw(-2), Errno::ENOENT);
    assert_eq!(errno_of_raw(-13), Errno::EACCES);
}
