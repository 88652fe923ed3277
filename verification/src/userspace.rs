//! Values that may cross the boundary between the kernel and user space.
use vstd::prelude::*;
use crate::errno::{Errno, errno_code, errno_of_code};

verus! {

/// A type whose values can be passed by value between user land and the
/// kernel.
pub trait UAbiBoundary: Sized {}

/// Internal marker that closes [`Number`] to the integer types below.
pub trait Sealed {}

/// A marker for the primitive integer types.
pub trait Number:
    Sized + Copy + PartialOrd + Ord + Eq + core::ops::Not<Output = Self> + core::ops::BitAnd<
        Output = Self,
    > + core::ops::BitOr<Output = Self> + core::ops::BitXor<Output = Self> + core::ops::Shl<
        usize,
        Output = Self,
    > + core::ops::Shr<usize, Output = Self> + Sealed {

}

impl UAbiBoundary for u8 {}
impl UAbiBoundary for i8 {}
impl UAbiBoundary for u16 {}
impl UAbiBoundary for i16 {}
impl UAbiBoundary for u32 {}
impl UAbiBoundary for i32 {}
impl UAbiBoundary for u64 {}
impl UAbiBoundary for i64 {}
impl UAbiBoundary for usize {}
impl UAbiBoundary for isize {}
impl UAbiBoundary for Errno {}
impl<T: UAbiBoundary, const N: usize> UAbiBoundary for [T; N] {}

impl Sealed for u8 {}
impl Sealed for i8 {}
impl Sealed for u16 {}
impl Sealed for i16 {}
impl Sealed for u32 {}
impl Sealed for i32 {}
impl Sealed for u64 {}
impl Sealed for i64 {}
impl Sealed for usize {}
impl Sealed for isize {}

impl Number for u8 {}
impl Number for i8 {}
impl Number for u16 {}
impl Number for i16 {}
impl Number for u32 {}
impl Number for i32 {}
impl Number for u64 {}
impl Number for i64 {}
impl Number for usize {}
impl Number for isize {}

/// Turns a kernel value into the value user space receives.
pub trait IntoUserSpace: Sized {
    /// What user space receives.
    type Output: UAbiBoundary;

    /// Converts `self` for user space.
    fn into_userspace(self) -> Self::Output;
}

/// What user space receives for the outcome of a call: zero on success and
/// the negated error number on failure.
pub open spec fn userspace_result(r: Result<(), Errno>) -> int {
    match r {
        Ok(_) => 0,
        Err(e) => -(errno_code(e) as int),
    }
}

impl IntoUserSpace for () {
    type Output = usize;

    fn into_userspace(self) -> (r: usize)
        ensures
            r == 0,
    {
        0
    }
}

impl IntoUserSpace for Result<(), Errno> {
    type Output = isize;

    fn into_userspace(self) -> (r: isize)
        ensures
            r == userspace_result(self),
    {
        match self {
            Ok(_) => 0,
            Err(e) => {
                let n = e.neg();
                n as isize
            },
        }
    }
}

impl<T: UAbiBoundary> IntoUserSpace for T {
    type Output = T;

    fn into_userspace(self) -> (r: T)
        ensures
            r == self,
    {
        self
    }
}

/// A failed call always reaches user space as a negative number, a
/// successful one as zero: user space tells them apart by the sign alone.
pub proof fn lemma_userspace_result_sign(r: Result<(), Errno>)
    ensures
        r is Ok <==> userspace_result(r) == 0,
        r is Err <==> userspace_result(r) < 0,
        userspace_result(r) >= i16::MIN,
{
    if let Err(e) = r {
        crate::errno::lemma_errno_code_roundtrip(e);
    }
}

/// Distinct outcomes reach user space as distinct numbers.
pub proof fn lemma_userspace_result_injective(a: Result<(), Errno>, b: Result<(), Errno>)
    requires
        userspace_result(a) == userspace_result(b),
    ensures
        a == b,
{
    lemma_userspace_result_sign(a);
    lemma_userspace_result_sign(b);
    match (a, b) {
        (Err(x), Err(y)) => crate::errno::lemma_errno_code_injective(x, y),
        (Ok(x), Ok(y)) => assert(x == y),
        _ => {},
    }
}

/// A failed call reaches user space as its error's `errno.h` number,
/// negated, the same value that [`Errno::neg`] gives; negating it back and
/// reading it as an error number gives the very error that failed the call.
pub proof fn lemma_userspace_result_is_negated_errno(e: Errno)
    ensures
        userspace_result(Err(e)) == -(errno_code(e) as int),
        errno_of_code(-userspace_result(Err(e))) == Some(e),
{
    crate::errno::lemma_errno_code_roundtrip(e);
}

} // verus!
