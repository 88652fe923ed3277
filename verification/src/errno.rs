//! Kernel error numbers and their conversion to what user space receives.
use vstd::prelude::*;

verus! {

/// The kernel's error numbers, kept in step with `errno.h`.
#[derive(Debug, Clone, Copy, PartialEq, Eq, Structural)]
pub enum Errno {
    /// `ENOSYS`
    NoSys,
    /// `EINVAL`
    Invalid,
    /// `EOPNOTSUPP`
    NotSupported,
    /// `ENOMEM`
    NoMem,
    /// `EOVERFLOW`
    TooSmall,
    /// `EAGAIN`
    Blocked,
    /// `EBADE`
    BadExchange,
    /// `E2BIG`
    TooBig,
    /// `EBADF`
    InvalidFD,
    /// `EBADFD`
    BadFD,
    /// `ESTALE`
    SaleFD,
    /// `EIO`
    IO,
    /// `EPERM`
    PermissionDenied,
    /// `EEXIST`
    FileExists,
    /// `EMFILE`
    MaxFD,
    /// `ENFILE`
    MaxFDSystems,
    /// `ETXTBSY`
    FileBusy,
    /// `EROFS`
    ReadOnly,
    /// `ENOTDIR`
    NotADir,
    /// `EISDIR`
    IsDir,
    /// `ENOTEMPTY`
    DirNotEmpty,
    /// `EDQUOT`
    QuotaReached,
    /// `ENOSPC`
    NoSpace,
    /// `ELOOP`
    SymLoop,
    /// `EMLINK`
    TooMuchLinks,
    /// `ENOEXEC`
    CouldNotExec,
    /// `ENXIO`
    NonExistentIo,
    /// `ENOTTY`
    NoTTY,
    /// `ENAMETOOLONG`
    NameTooLong,
    /// `ENOTRECOVERABLE`
    NotRecoverable,
}

/// The number that `errno.h` gives each error.
pub open spec fn errno_code(e: Errno) -> u32 {
    match e {
        Errno::NoSys => 1,
        Errno::Invalid => 2,
        Errno::NotSupported => 3,
        Errno::NoMem => 4,
        Errno::TooSmall => 5,
        Errno::Blocked => 6,
        Errno::BadExchange => 8,
        Errno::TooBig => 9,
        Errno::InvalidFD => 10,
        Errno::BadFD => 11,
        Errno::SaleFD => 12,
        Errno::IO => 13,
        Errno::PermissionDenied => 14,
        Errno::FileExists => 15,
        Errno::MaxFD => 16,
        Errno::MaxFDSystems => 17,
        Errno::FileBusy => 18,
        Errno::ReadOnly => 19,
        Errno::NotADir => 20,
        Errno::IsDir => 21,
        Errno::DirNotEmpty => 22,
        Errno::QuotaReached => 23,
        Errno::NoSpace => 24,
        Errno::SymLoop => 25,
        Errno::TooMuchLinks => 26,
        Errno::CouldNotExec => 27,
        Errno::NonExistentIo => 30,
        Errno::NoTTY => 31,
        Errno::NameTooLong => 141,
        Errno::NotRecoverable => 143,
    }
}

/// The error whose number is `v`, if there is one.
pub open spec fn errno_of_code(v: int) -> Option<Errno> {
    if v == 1 { Some(Errno::NoSys) }
    else if v == 2 { Some(Errno::Invalid) }
    else if v == 3 { Some(Errno::NotSupported) }
    else if v == 4 { Some(Errno::NoMem) }
    else if v == 5 { Some(Errno::TooSmall) }
    else if v == 6 { Some(Errno::Blocked) }
    else if v == 8 { Some(Errno::BadExchange) }
    else if v == 9 { Some(Errno::TooBig) }
    else if v == 10 { Some(Errno::InvalidFD) }
    else if v == 11 { Some(Errno::BadFD) }
    else if v == 12 { Some(Errno::SaleFD) }
    else if v == 13 { Some(Errno::IO) }
    else if v == 14 { Some(Errno::PermissionDenied) }
    else if v == 15 { Some(Errno::FileExists) }
    else if v == 16 { Some(Errno::MaxFD) }
    else if v == 17 { Some(Errno::MaxFDSystems) }
    else if v == 18 { Some(Errno::FileBusy) }
    else if v == 19 { Some(Errno::ReadOnly) }
    else if v == 20 { Some(Errno::NotADir) }
    else if v == 21 { Some(Errno::IsDir) }
    else if v == 22 { Some(Errno::DirNotEmpty) }
    else if v == 23 { Some(Errno::QuotaReached) }
    else if v == 24 { Some(Errno::NoSpace) }
    else if v == 25 { Some(Errno::SymLoop) }
    else if v == 26 { Some(Errno::TooMuchLinks) }
    else if v == 27 { Some(Errno::CouldNotExec) }
    else if v == 30 { Some(Errno::NonExistentIo) }
    else if v == 31 { Some(Errno::NoTTY) }
    else if v == 141 { Some(Errno::NameTooLong) }
    else if v == 143 { Some(Errno::NotRecoverable) }
    else { None }
}

/// What converting the integer `v` into an [`Errno`] gives.
pub closed spec fn errno_try_from(v: int) -> Result<Errno, FromIntError> {
    match errno_of_code(v) {
        Some(e) => Ok(e),
        None => Err(FromIntError(())),
    }
}

/// The text that an error displays as: its name, a colon and a message.
pub open spec fn errno_message(e: Errno) -> Seq<char> {
    match e {
        Errno::NoSys => "NoSys:Function/syscall not implemented"@,
        Errno::Invalid => "Invalid:Invalid Argument"@,
        Errno::NotSupported => "NotSupported:Operation not supported"@,
        Errno::NoMem => "NoMem:Cannot Allocate Memory"@,
        Errno::TooSmall => "TooSmall:Buffer is too small for requested data"@,
        Errno::Blocked => "Blocked:Resource temporarily unavailable, try again"@,
        Errno::BadExchange => "BadExchange:Invalid exchange"@,
        Errno::TooBig => "TooBig:Argument list is too big"@,
        Errno::InvalidFD => "InvalidFD:Bad File Descriptor"@,
        Errno::BadFD => "BadFD:File Descriptor in bad state"@,
        Errno::SaleFD => "SaleFD:Stale file handle"@,
        Errno::IO => "IO:Input/Output error"@,
        Errno::PermissionDenied => "PermissionDenied:Permission denied"@,
        Errno::FileExists => "FileExists:File Exists"@,
        Errno::MaxFD => "MaxFD:Reached max open files"@,
        Errno::MaxFDSystems => "MaxFDSystems:Reached max open files for system"@,
        Errno::FileBusy => "FileBusy:Text file busy (depends on Filesystem)"@,
        Errno::ReadOnly => "ReadOnly:Read only filesystem"@,
        Errno::NotADir => "NotADir:Not a directory, expected directory"@,
        Errno::IsDir => "IsDir:A directory, didn't expect a directory "@,
        Errno::DirNotEmpty => "DirNotEmpty:Directory not empty"@,
        Errno::QuotaReached => "QuotaReached:Quota Reached"@,
        Errno::NoSpace => "NoSpace:Out of space"@,
        Errno::SymLoop => "SymLoop:Too many levels of symbolic links"@,
        Errno::TooMuchLinks => "TooMuchLinks:Too many (hard) links"@,
        Errno::CouldNotExec => "CouldNotExec:File Found, but could not be executed"@,
        Errno::NonExistentIo => "NonExistentIo:No such device or address"@,
        Errno::NoTTY => "NoTTY:Inappropriate ioctl for device"@,
        Errno::NameTooLong => "NameTooLong:File name is too long"@,
        Errno::NotRecoverable => "NotRecoverable:State not recoverable"@,
    }
}

/// The error returned when an integer names no [`Errno`].
#[derive(Debug)]
pub struct FromIntError(());

impl FromIntError {
    /// The text this error displays as.
    pub fn message(&self) -> (r: &'static str)
        ensures
            r@ == "Invalid Value passed into TryFrom for Errno"@,
    {
        "Invalid Value passed into TryFrom for Errno"
    }
}

impl Errno {
    /// The number of this error.
    pub fn code(self) -> (r: u32)
        ensures
            r == errno_code(self),
    {
        match self {
            Errno::NoSys => 1,
            Errno::Invalid => 2,
            Errno::NotSupported => 3,
            Errno::NoMem => 4,
            Errno::TooSmall => 5,
            Errno::Blocked => 6,
            Errno::BadExchange => 8,
            Errno::TooBig => 9,
            Errno::InvalidFD => 10,
            Errno::BadFD => 11,
            Errno::SaleFD => 12,
            Errno::IO => 13,
            Errno::PermissionDenied => 14,
            Errno::FileExists => 15,
            Errno::MaxFD => 16,
            Errno::MaxFDSystems => 17,
            Errno::FileBusy => 18,
            Errno::ReadOnly => 19,
            Errno::NotADir => 20,
            Errno::IsDir => 21,
            Errno::DirNotEmpty => 22,
            Errno::QuotaReached => 23,
            Errno::NoSpace => 24,
            Errno::SymLoop => 25,
            Errno::TooMuchLinks => 26,
            Errno::CouldNotExec => 27,
            Errno::NonExistentIo => 30,
            Errno::NoTTY => 31,
            Errno::NameTooLong => 141,
            Errno::NotRecoverable => 143,
        }
    }

    /// The error whose number is `value`, for any integer width.
    pub fn from_code(value: i128) -> (r: Result<Errno, FromIntError>)
        ensures
            r == errno_try_from(value as int),
            r is Ok <==> errno_of_code(value as int) is Some,
            errno_of_code(value as int) matches Some(e) ==> r == Ok::<Errno, FromIntError>(e),
    {
        if value == 1 { Ok(Errno::NoSys) }
        else if value == 2 { Ok(Errno::Invalid) }
        else if value == 3 { Ok(Errno::NotSupported) }
        else if value == 4 { Ok(Errno::NoMem) }
        else if value == 5 { Ok(Errno::TooSmall) }
        else if value == 6 { Ok(Errno::Blocked) }
        else if value == 8 { Ok(Errno::BadExchange) }
        else if value == 9 { Ok(Errno::TooBig) }
        else if value == 10 { Ok(Errno::InvalidFD) }
        else if value == 11 { Ok(Errno::BadFD) }
        else if value == 12 { Ok(Errno::SaleFD) }
        else if value == 13 { Ok(Errno::IO) }
        else if value == 14 { Ok(Errno::PermissionDenied) }
        else if value == 15 { Ok(Errno::FileExists) }
        else if value == 16 { Ok(Errno::MaxFD) }
        else if value == 17 { Ok(Errno::MaxFDSystems) }
        else if value == 18 { Ok(Errno::FileBusy) }
        else if value == 19 { Ok(Errno::ReadOnly) }
        else if value == 20 { Ok(Errno::NotADir) }
        else if value == 21 { Ok(Errno::IsDir) }
        else if value == 22 { Ok(Errno::DirNotEmpty) }
        else if value == 23 { Ok(Errno::QuotaReached) }
        else if value == 24 { Ok(Errno::NoSpace) }
        else if value == 25 { Ok(Errno::SymLoop) }
        else if value == 26 { Ok(Errno::TooMuchLinks) }
        else if value == 27 { Ok(Errno::CouldNotExec) }
        else if value == 30 { Ok(Errno::NonExistentIo) }
        else if value == 31 { Ok(Errno::NoTTY) }
        else if value == 141 { Ok(Errno::NameTooLong) }
        else if value == 143 { Ok(Errno::NotRecoverable) }
        else { Err(FromIntError(())) }
    }

    /// The negated number, as the result register carries it.
    pub fn neg(self) -> (r: i16)
        ensures
            r == -(errno_code(self) as int),
    {
        let c = self.code();
        -(c as i16)
    }

    /// The text this error displays as.
    pub fn message(&self) -> (r: &'static str)
        ensures
            r@ == errno_message(*self),
    {
        match self {
            Errno::NoSys => "NoSys:Function/syscall not implemented",
            Errno::Invalid => "Invalid:Invalid Argument",
            Errno::NotSupported => "NotSupported:Operation not supported",
            Errno::NoMem => "NoMem:Cannot Allocate Memory",
            Errno::TooSmall => "TooSmall:Buffer is too small for requested data",
            Errno::Blocked => "Blocked:Resource temporarily unavailable, try again",
            Errno::BadExchange => "BadExchange:Invalid exchange",
            Errno::TooBig => "TooBig:Argument list is too big",
            Errno::InvalidFD => "InvalidFD:Bad File Descriptor",
            Errno::BadFD => "BadFD:File Descriptor in bad state",
            Errno::SaleFD => "SaleFD:Stale file handle",
            Errno::IO => "IO:Input/Output error",
            Errno::PermissionDenied => "PermissionDenied:Permission denied",
            Errno::FileExists => "FileExists:File Exists",
            Errno::MaxFD => "MaxFD:Reached max open files",
            Errno::MaxFDSystems => "MaxFDSystems:Reached max open files for system",
            Errno::FileBusy => "FileBusy:Text file busy (depends on Filesystem)",
            Errno::ReadOnly => "ReadOnly:Read only filesystem",
            Errno::NotADir => "NotADir:Not a directory, expected directory",
            Errno::IsDir => "IsDir:A directory, didn't expect a directory ",
            Errno::DirNotEmpty => "DirNotEmpty:Directory not empty",
            Errno::QuotaReached => "QuotaReached:Quota Reached",
            Errno::NoSpace => "NoSpace:Out of space",
            Errno::SymLoop => "SymLoop:Too many levels of symbolic links",
            Errno::TooMuchLinks => "TooMuchLinks:Too many (hard) links",
            Errno::CouldNotExec => "CouldNotExec:File Found, but could not be executed",
            Errno::NonExistentIo => "NonExistentIo:No such device or address",
            Errno::NoTTY => "NoTTY:Inappropriate ioctl for device",
            Errno::NameTooLong => "NameTooLong:File name is too long",
            Errno::NotRecoverable => "NotRecoverable:State not recoverable",
        }
    }
}

/// Every error number is nonzero and positive when read as an `i16`, and
/// reading it back names the same error.
pub proof fn lemma_errno_code_roundtrip(e: Errno)
    ensures
        errno_code(e) != 0,
        0 < errno_code(e) <= i16::MAX,
        errno_of_code(errno_code(e) as int) == Some(e),
{
}

/// Converting an integer gives the error it names, and an error exactly when
/// it names none.
pub proof fn lemma_errno_try_from(v: int)
    ensures
        errno_try_from(v) is Ok <==> errno_of_code(v) is Some,
        errno_of_code(v) is Some ==> errno_try_from(v) == Ok::<Errno, FromIntError>(
            errno_of_code(v)->0,
        ),
{
}

/// The numbers are those of `errno.h`, name by name: `ENOSYS` 1, `EINVAL` 2,
/// `EOPNOTSUPP` 3, `ENOMEM` 4, `EOVERFLOW` 5, `EAGAIN` 6, `EBADE` 8, `E2BIG` 9,
/// `EBADF` 10, `EBADFD` 11, `ESTALE` 12, `EIO` 13, `EPERM` 14, `EEXIST` 15,
/// `EMFILE` 16, `ENFILE` 17, `ETXTBSY` 18, `EROFS` 19, `ENOTDIR` 20,
/// `EISDIR` 21, `ENOTEMPTY` 22, `EDQUOT` 23, `ENOSPC` 24, `ELOOP` 25,
/// `EMLINK` 26, `ENOEXEC` 27, `ENXIO` 30, `ENOTTY` 31, `ENAMETOOLONG` 141 and
/// `ENOTRECOVERABLE` 143; each of these numbers reads back as its error, and
/// no other number names an error.
pub proof fn lemma_errno_h_numbers(v: int)
    ensures
        errno_code(Errno::NoSys) == 1,
        errno_code(Errno::Invalid) == 2,
        errno_code(Errno::NotSupported) == 3,
        errno_code(Errno::NoMem) == 4,
        errno_code(Errno::TooSmall) == 5,
        errno_code(Errno::Blocked) == 6,
        errno_code(Errno::BadExchange) == 8,
        errno_code(Errno::TooBig) == 9,
        errno_code(Errno::InvalidFD) == 10,
        errno_code(Errno::BadFD) == 11,
        errno_code(Errno::SaleFD) == 12,
        errno_code(Errno::IO) == 13,
        errno_code(Errno::PermissionDenied) == 14,
        errno_code(Errno::FileExists) == 15,
        errno_code(Errno::MaxFD) == 16,
        errno_code(Errno::MaxFDSystems) == 17,
        errno_code(Errno::FileBusy) == 18,
        errno_code(Errno::ReadOnly) == 19,
        errno_code(Errno::NotADir) == 20,
        errno_code(Errno::IsDir) == 21,
        errno_code(Errno::DirNotEmpty) == 22,
        errno_code(Errno::QuotaReached) == 23,
        errno_code(Errno::NoSpace) == 24,
        errno_code(Errno::SymLoop) == 25,
        errno_code(Errno::TooMuchLinks) == 26,
        errno_code(Errno::CouldNotExec) == 27,
        errno_code(Errno::NonExistentIo) == 30,
        errno_code(Errno::NoTTY) == 31,
        errno_code(Errno::NameTooLong) == 141,
        errno_code(Errno::NotRecoverable) == 143,
        errno_of_code(1) == Some(Errno::NoSys),
        errno_of_code(2) == Some(Errno::Invalid),
        errno_of_code(3) == Some(Errno::NotSupported),
        errno_of_code(4) == Some(Errno::NoMem),
        errno_of_code(5) == Some(Errno::TooSmall),
        errno_of_code(6) == Some(Errno::Blocked),
        errno_of_code(8) == Some(Errno::BadExchange),
        errno_of_code(9) == Some(Errno::TooBig),
        errno_of_code(10) == Some(Errno::InvalidFD),
        errno_of_code(11) == Some(Errno::BadFD),
        errno_of_code(12) == Some(Errno::SaleFD),
        errno_of_code(13) == Some(Errno::IO),
        errno_of_code(14) == Some(Errno::PermissionDenied),
        errno_of_code(15) == Some(Errno::FileExists),
        errno_of_code(16) == Some(Errno::MaxFD),
        errno_of_code(17) == Some(Errno::MaxFDSystems),
        errno_of_code(18) == Some(Errno::FileBusy),
        errno_of_code(19) == Some(Errno::ReadOnly),
        errno_of_code(20) == Some(Errno::NotADir),
        errno_of_code(21) == Some(Errno::IsDir),
        errno_of_code(22) == Some(Errno::DirNotEmpty),
        errno_of_code(23) == Some(Errno::QuotaReached),
        errno_of_code(24) == Some(Errno::NoSpace),
        errno_of_code(25) == Some(Errno::SymLoop),
        errno_of_code(26) == Some(Errno::TooMuchLinks),
        errno_of_code(27) == Some(Errno::CouldNotExec),
        errno_of_code(30) == Some(Errno::NonExistentIo),
        errno_of_code(31) == Some(Errno::NoTTY),
        errno_of_code(141) == Some(Errno::NameTooLong),
        errno_of_code(143) == Some(Errno::NotRecoverable),
        errno_of_code(v) is Some <==> (1 <= v <= 6 || 8 <= v <= 27 || v == 30 || v == 31 || v
            == 141 || v == 143),
{
}

/// Two errors with the same number are the same error.
pub proof fn lemma_errno_code_injective(a: Errno, b: Errno)
    requires
        errno_code(a) == errno_code(b),
    ensures
        a == b,
{
    lemma_errno_code_roundtrip(a);
    lemma_errno_code_roundtrip(b);
}

/// Conversion of a value into the error that names it.
pub trait ToErrno {
    /// Converts `self` into an [`Errno`], consuming it.
    fn into_errno(self) -> Errno where Self: Sized;

    /// Converts `self` into an [`Errno`].
    fn as_errno(&self) -> Errno;
}

impl ToErrno for Errno {
    fn into_errno(self) -> (r: Errno)
        ensures
            r == self,
    {
        self
    }

    fn as_errno(&self) -> (r: Errno)
        ensures
            r == *self,
    {
        *self
    }
}

impl TryFrom<u8> for Errno {
    type Error = FromIntError;

    fn try_from(value: u8) -> (r: Result<Errno, FromIntError>) {
        Errno::from_code(value as i128)
    }
}

impl vstd::std_specs::convert::TryFromSpecImpl<u8> for Errno {
    open spec fn obeys_try_from_spec() -> bool {
        true
    }

    open spec fn try_from_spec(v: u8) -> Result<Errno, FromIntError> {
        errno_try_from(v as int)
    }
}

impl TryFrom<u16> for Errno {
    type Error = FromIntError;

    fn try_from(value: u16) -> (r: Result<Errno, FromIntError>) {
        Errno::from_code(value as i128)
    }
}

impl vstd::std_specs::convert::TryFromSpecImpl<u16> for Errno {
    open spec fn obeys_try_from_spec() -> bool {
        true
    }

    open spec fn try_from_spec(v: u16) -> Result<Errno, FromIntError> {
        errno_try_from(v as int)
    }
}

impl TryFrom<i16> for Errno {
    type Error = FromIntError;

    fn try_from(value: i16) -> (r: Result<Errno, FromIntError>) {
        Errno::from_code(value as i128)
    }
}

impl vstd::std_specs::convert::TryFromSpecImpl<i16> for Errno {
    open spec fn obeys_try_from_spec() -> bool {
        true
    }

    open spec fn try_from_spec(v: i16) -> Result<Errno, FromIntError> {
        errno_try_from(v as int)
    }
}

impl TryFrom<u32> for Errno {
    type Error = FromIntError;

    fn try_from(value: u32) -> (r: Result<Errno, FromIntError>) {
        Errno::from_code(value as i128)
    }
}

impl vstd::std_specs::convert::TryFromSpecImpl<u32> for Errno {
    open spec fn obeys_try_from_spec() -> bool {
        true
    }

    open spec fn try_from_spec(v: u32) -> Result<Errno, FromIntError> {
        errno_try_from(v as int)
    }
}

impl TryFrom<i32> for Errno {
    type Error = FromIntError;

    fn try_from(value: i32) -> (r: Result<Errno, FromIntError>) {
        Errno::from_code(value as i128)
    }
}

impl vstd::std_specs::convert::TryFromSpecImpl<i32> for Errno {
    open spec fn obeys_try_from_spec() -> bool {
        true
    }

    open spec fn try_from_spec(v: i32) -> Result<Errno, FromIntError> {
        errno_try_from(v as int)
    }
}

impl TryFrom<u64> for Errno {
    type Error = FromIntError;

    fn try_from(value: u64) -> (r: Result<Errno, FromIntError>) {
        Errno::from_code(value as i128)
    }
}

impl vstd::std_specs::convert::TryFromSpecImpl<u64> for Errno {
    open spec fn obeys_try_from_spec() -> bool {
        true
    }

    open spec fn try_from_spec(v: u64) -> Result<Errno, FromIntError> {
        errno_try_from(v as int)
    }
}

impl TryFrom<i64> for Errno {
    type Error = FromIntError;

    fn try_from(value: i64) -> (r: Result<Errno, FromIntError>) {
        Errno::from_code(value as i128)
    }
}

impl vstd::std_specs::convert::TryFromSpecImpl<i64> for Errno {
    open spec fn obeys_try_from_spec() -> bool {
        true
    }

    open spec fn try_from_spec(v: i64) -> Result<Errno, FromIntError> {
        errno_try_from(v as int)
    }
}

impl TryFrom<usize> for Errno {
    type Error = FromIntError;

    fn try_from(value: usize) -> (r: Result<Errno, FromIntError>) {
        Errno::from_code(value as i128)
    }
}

impl vstd::std_specs::convert::TryFromSpecImpl<usize> for Errno {
    open spec fn obeys_try_from_spec() -> bool {
        true
    }

    open spec fn try_from_spec(v: usize) -> Result<Errno, FromIntError> {
        errno_try_from(v as int)
    }
}

impl TryFrom<isize> for Errno {
    type Error = FromIntError;

    fn try_from(value: isize) -> (r: Result<Errno, FromIntError>) {
        Errno::from_code(value as i128)
    }
}

impl vstd::std_specs::convert::TryFromSpecImpl<isize> for Errno {
    open spec fn obeys_try_from_spec() -> bool {
        true
    }

    open spec fn try_from_spec(v: isize) -> Result<Errno, FromIntError> {
        errno_try_from(v as int)
    }
}

} // verus!
