//! The kernel command line.
use vstd::prelude::*;
use crate::ascii::AStr;

verus! {

#[verifier::external_type_specification]
#[verifier::external_body]
#[verifier::reject_recursive_types(T)]
#[verifier::reject_recursive_types(R)]
pub struct ExOnce<T, R>(spin::once::Once<T, R>);

#[verifier::external_type_specification]
#[verifier::external_body]
pub struct ExSpin(spin::relax::Spin);

/// The values a once-cell holds, by their bytes: none before it is
/// initialized, one after.
pub uninterp spec fn once_contents(o: spin::Once<AStr<'static>>) -> Seq<Seq<u8>>;

/// `spin::Once::initialized`: a once-cell that already holds `v`.
///
/// Claims what spin's source shows: the cell is complete and holds `v`.
#[verifier::external_body]
fn once_initialized(v: AStr<'static>) -> (r: spin::Once<AStr<'static>>)
    ensures
        once_contents(r) == seq![v@],
{
    spin::Once::initialized(v)
}

/// An empty command line, for future use.
pub struct CommandLine {}

/// The kernel command line, set once.
pub struct CmdLine {
    inner: spin::Once<AStr<'static>>,
}

impl CmdLine {
    /// The command line held, by its bytes: none, or one.
    pub closed spec fn contents(&self) -> Seq<Seq<u8>> {
        once_contents(self.inner)
    }
}

impl Default for CmdLine {
    /// An empty command line.
    fn default() -> (r: CmdLine)
        ensures
            r.contents().len() == 1,
            r.contents()[0].len() == 0,
    {
        CmdLine { inner: once_initialized(AStr::empty()) }
    }
}

} // verus!
