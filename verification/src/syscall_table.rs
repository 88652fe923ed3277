//! The system-call table the build reads: each call's number, name and kind.
use vstd::prelude::*;

verus! {

/// The kind of a system call.
#[derive(Debug, Clone, Copy, PartialEq, Eq, Structural)]
#[non_exhaustive]
pub enum SyscallType {
    /// A standard call: not necessarily POSIX, but most POSIX calls are here.
    STD,
    /// A call recognised but answered with `-ENOSYS`.
    Unimplemented,
    /// An extension, not a standard.
    Ext,
}

/// The error of a kind name that is none of `STD`, `UNIMPL` and `EXT`;
/// holds the name as it was given.
#[derive(Debug)]
pub struct InvalidSyscallTypeError(String);

impl View for InvalidSyscallTypeError {
    type V = Seq<char>;

    closed spec fn view(&self) -> Seq<char> {
        self.0@
    }
}

impl InvalidSyscallTypeError {
    /// The name that was tried, as it was given.
    pub fn as_str(&self) -> (r: &str)
        ensures
            r@ == self@,
    {
        self.0.as_str()
    }

    /// The text this error displays as.
    pub fn message(&self) -> (r: String)
        ensures
            r@ == "Invalid Syscall Type: `"@ + self@ + "`"@,
    {
        let mut m = String::from_str("Invalid Syscall Type: `");
        m.append(self.0.as_str());
        m.append("`");
        m
    }

    /// The text this error shows when debugged: its name, with the name
    /// that was tried left out.
    pub fn debug_text(&self) -> (r: &'static str)
        ensures
            r@ == "InvalidSyscallTypeError { .. }"@,
    {
        "InvalidSyscallTypeError { .. }"
    }
}

/// What Unicode upper-casing makes of a string.
pub uninterp spec fn str_to_uppercase(s: Seq<char>) -> Seq<char>;

/// `str::to_uppercase`.
///
/// The contract names the result and claims it depends on the text alone;
/// the Unicode case mapping is not stated.
#[verifier::external_body]
fn to_uppercase(s: &str) -> (r: String)
    ensures
        r@ == str_to_uppercase(s@),
{
    s.to_uppercase()
}

/// The kind an upper-cased name stands for.
pub open spec fn kind_of_name(upper: Seq<char>) -> Option<SyscallType> {
    if upper == "STD"@ {
        Some(SyscallType::STD)
    } else if upper == "UNIMPL"@ {
        Some(SyscallType::Unimplemented)
    } else if upper == "EXT"@ {
        Some(SyscallType::Ext)
    } else {
        None
    }
}

/// A name stands for a kind exactly when, upper-cased, it is one of the
/// three kind names, whole: `STD` for the standard calls, `UNIMPL` for the
/// unimplemented ones and `EXT` for the extensions. Any other text, a longer
/// one that begins with a kind name among them, stands for none.
pub proof fn lemma_kind_names(upper: Seq<char>)
    ensures
        kind_of_name(upper) is Some <==> (upper == "STD"@ || upper == "UNIMPL"@ || upper
            == "EXT"@),
        kind_of_name(upper) == Some(SyscallType::STD) <==> upper == "STD"@,
        kind_of_name(upper) == Some(SyscallType::Unimplemented) <==> upper == "UNIMPL"@,
        kind_of_name(upper) == Some(SyscallType::Ext) <==> upper == "EXT"@,
{
    reveal_strlit("STD");
    reveal_strlit("UNIMPL");
    reveal_strlit("EXT");
    assert("STD"@.len() == 3);
    assert("UNIMPL"@.len() == 6);
    assert("EXT"@.len() == 3);
    assert("STD"@[0] != "EXT"@[0]);
}

impl SyscallType {
    /// The kind that the name `attempted`, upper-cased as `upper`, stands
    /// for: refused, keeping `attempted`, exactly when `upper` is none of
    /// `STD`, `UNIMPL` and `EXT`.
    pub fn from_uppercase(attempted: &str, upper: String) -> (r: Result<
        SyscallType,
        InvalidSyscallTypeError,
    >)
        ensures
            match kind_of_name(upper@) {
                Some(k) => r == Ok::<SyscallType, InvalidSyscallTypeError>(k),
                None => r matches Err(e) && e@ == attempted@,
            },
    {
        if upper == String::from_str("STD") {
            Ok(SyscallType::STD)
        } else if upper == String::from_str("UNIMPL") {
            Ok(SyscallType::Unimplemented)
        } else if upper == String::from_str("EXT") {
            Ok(SyscallType::Ext)
        } else {
            Err(InvalidSyscallTypeError(String::from_str(attempted)))
        }
    }

    /// Parses a kind from its name, in any case.
    pub fn parse(s: &str) -> (r: Result<SyscallType, InvalidSyscallTypeError>)
        ensures
            match kind_of_name(str_to_uppercase(s@)) {
                Some(k) => r == Ok::<SyscallType, InvalidSyscallTypeError>(k),
                None => r matches Err(e) && e@ == s@,
            },
    {
        let upper = to_uppercase(s);
        SyscallType::from_uppercase(s, upper)
    }
}

impl core::str::FromStr for SyscallType {
    type Err = InvalidSyscallTypeError;

    fn from_str(s: &str) -> (r: Result<SyscallType, InvalidSyscallTypeError>)
        ensures
            match kind_of_name(str_to_uppercase(s@)) {
                Some(k) => r == Ok::<SyscallType, InvalidSyscallTypeError>(k),
                None => r matches Err(e) && e@ == s@,
            },
    {
        SyscallType::parse(s)
    }
}

/// A system call: its number, name and kind.
#[derive(Debug)]
pub struct Syscall {
    call_number: u32,
    name: String,
    type_: SyscallType,
}

impl Syscall {
    /// The call's number.
    pub closed spec fn number(&self) -> u32 {
        self.call_number
    }

    /// The call's name.
    pub closed spec fn name_view(&self) -> Seq<char> {
        self.name@
    }

    /// The call's kind.
    pub closed spec fn kind(&self) -> SyscallType {
        self.type_
    }

    /// A system call. The number must not be zero, which is kept for
    /// [`Syscall::bare`].
    pub fn new(number: u32, name: &str, type_: SyscallType) -> (r: Syscall)
        requires
            number != 0,
        ensures
            r.number() == number,
            r.name_view() == name@,
            r.kind() == type_,
    {
        Syscall { call_number: number, name: String::from_str(name), type_ }
    }

    /// The call's name.
    pub fn name(&self) -> (r: &str)
        ensures
            r@ == self.name_view(),
    {
        self.name.as_str()
    }

    /// The call's kind.
    pub fn get_type(&self) -> (r: SyscallType)
        ensures
            r == self.kind(),
    {
        self.type_
    }

    /// The bare call: number 0, named `Bare`, unimplemented. No valid call
    /// has number 0, which always answers `-ENOSYS`.
    pub fn bare() -> (r: Syscall)
        ensures
            r.number() == 0,
            r.name_view() == "Bare"@,
            r.kind() == SyscallType::Unimplemented,
    {
        Syscall { call_number: 0, name: String::from_str("Bare"), type_: SyscallType::Unimplemented }
    }
}

impl Default for Syscall {
    /// The bare call; see [`Syscall::bare`].
    fn default() -> (r: Syscall)
        ensures
            r.number() == 0,
            r.name_view() == "Bare"@,
            r.kind() == SyscallType::Unimplemented,
    {
        Syscall::bare()
    }
}

} // verus!
