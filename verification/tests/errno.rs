use oes::errno::{Errno, FromIntError};
use oes::userspace::IntoUserSpace;
use oes::errno::ToErrno;

#[test]
fn errno_codes_match_errno_h() {
    assert_eq!(Errno::NoSys.code(), 1);
    assert_eq!(Errno::BadExchange.code(), 8);
    assert_eq!(Errno::NoTTY.code(), 31);
    assert_eq!(Errno::NameTooLong.code(), 141);
    assert_eq!(Errno::NotRecoverable.code(), 143);
}

#[test]
fn errno_roundtrips_through_every_width() {
    let all = [
        Errno::NoSys, Errno::Invalid, Errno::NotSupported, Errno::NoMem, Errno::TooSmall,
        Errno::Blocked, Errno::BadExchange, Errno::TooBig, Errno::InvalidFD, Errno::BadFD,
        Errno::SaleFD, Errno::IO, Errno::PermissionDenied, Errno::FileExists, Errno::MaxFD,
        Errno::MaxFDSystems, Errno::FileBusy, Errno::ReadOnly, Errno::NotADir, Errno::IsDir,
        Errno::DirNotEmpty, Errno::QuotaReached, Errno::NoSpace, Errno::SymLoop,
        Errno::TooMuchLinks, Errno::CouldNotExec, Errno::NonExistentIo, Errno::NoTTY,
        Errno::NameTooLong, Errno::NotRecoverable,
    ];
    for e in all {
        let c = e.code();
        assert!(c != 0);
        assert!((c as i16) > 0);
        assert_eq!(Errno::try_from(c).unwrap(), e);
        assert_eq!(Errno::try_from(c as u8).unwrap(), e);
        assert_eq!(Errno::try_from(c as u16).unwrap(), e);
        assert_eq!(Errno::try_from(c as i16).unwrap(), e);
        assert_eq!(Errno::try_from(c as i32).unwrap(), e);
        assert_eq!(Errno::try_from(c as u64).unwrap(), e);
        assert_eq!(Errno::try_from(c as i64).unwrap(), e);
        assert_eq!(Errno::try_from(c as usize).unwrap(), e);
        assert_eq!(Errno::try_from(c as isize).unwrap(), e);
        assert_eq!(e.neg(), -(c as i16));
    }
}

#[test]
fn errno_rejects_unlisted_numbers() {
    for v in [0u32, 7, 28, 29, 32, 140, 142, 144, u32::MAX] {
        let r: Result<Errno, FromIntError> = Errno::try_from(v);
        assert!(r.is_err());
    }
    assert!(Errno::try_from(-1i32).is_err());
    assert!(Errno::try_from((1u64 << 32) + 1).is_err());
    assert!(Errno::from_code(-143).is_err());
    assert_eq!(Errno::try_from(0u32).unwrap_err().message(), "Invalid Value passed into TryFrom for Errno");
}

#[test]
fn errno_messages() {
    assert_eq!(Errno::NoSys.message(), "NoSys:Function/syscall not implemented");
    assert_eq!(Errno::IsDir.message(), "IsDir:A directory, didn't expect a directory ");
    assert_eq!(Errno::NotRecoverable.message(), "NotRecoverable:State not recoverable");
}

#[test]
fn results_reach_user_space_as_signed_numbers() {
    let ok: Result<(), Errno> = Ok(());
    assert_eq!(ok.into_userspace(), 0isize);
    let err: Result<(), Errno> = Err(Errno::NoMem);
    assert_eq!(err.into_userspace(), -4isize);
    let err: Result<(), Errno> = Err(Errno::NotRecoverable);
    assert_eq!(err.into_userspace(), -143isize);
    assert_eq!(().into_userspace(), 0usize);
    assert_eq!(7u32.into_userspace(), 7u32);
    assert_eq!(Errno::IO.into_userspace(), Errno::IO);
}

#[test]
fn to_errno_is_identity() {
    assert_eq!(Errno::Blocked.into_errno(), Errno::Blocked);
    assert_eq!(Errno::Blocked.as_errno(), Errno::Blocked);
}
