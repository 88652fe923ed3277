//! Scheduling.
use vstd::prelude::*;

verus! {

/// A task: a user process or a kernel thread.
pub struct Task(());

/// `core::hint::spin_loop`: tells the processor that this is a busy-wait.
#[verifier::external_body]
fn spin_loop_hint() {
    core::hint::spin_loop()
}

/// Yields the current thread. With no scheduler yet, this is a busy-wait
/// hint to the processor.
pub fn yield_now() {
    spin_loop_hint();
}

} // verus!
