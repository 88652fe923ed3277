//! Kernel printing: raw bytes written whole through the kernel's writer,
//! which a ticket lock guards.
use vstd::prelude::*;
use crate::drivers::{log_since, offers_follow_replies, whole_write_replies, Write};
use crate::mutex::Mutex;

verus! {

/// How many times printing tries to take the writer's lock before it gives
/// up.
pub const PRINTK_ATTEMPTS: u32 = 10000;

/// Writes `msg` whole through a writer already held. Returns how many bytes
/// were written, which is all of them, or `None` when a write of the writer
/// fails or writes nothing.
pub fn printk_to<W: Write + ?Sized>(w: &mut W, msg: &[u8]) -> (r: Option<usize>)
    ensures
        r is Some ==> r == Some(msg@.len() as usize) && final(w).accepted() == old(w).accepted()
            + msg@,
        exists|k: int|
            0 <= k <= msg@.len() && final(w).accepted() == old(w).accepted() + msg@.subrange(0, k),
        msg@.len() == 0 ==> r == Some(0usize),
        old(w).replies().is_prefix_of(final(w).replies()),
        whole_write_replies(
            log_since(old(w).replies(), final(w).replies()),
            msg@.len() as int,
            r is Some,
        ),
        old(w).offered().is_prefix_of(final(w).offered()),
        offers_follow_replies(
            log_since(old(w).offered(), final(w).offered()),
            log_since(old(w).replies(), final(w).replies()),
            msg@,
        ),
        final(w).flushes() == old(w).flushes(),
        old(w).never_fails() ==> r == Some(msg@.len() as usize),
{
    match w.write_all(msg) {
        Some(()) => Some(msg.len()),
        None => None,
    }
}

/// Prints raw bytes, with no formatting, through the writer that `writer`
/// guards. Returns how many bytes were written, or `None` when the lock
/// could not be taken in [`PRINTK_ATTEMPTS`] tries, which may mean a
/// deadlock, or when a write of the writer fails or writes nothing.
///
/// Taking the lock, the bytes are written whole and the lock is released.
pub fn printk<W: Write>(writer: &mut Mutex<W>, msg: &[u8]) -> (r: Option<usize>)
    ensures
        !old(writer).is_free() ==> r is None && final(writer).next_ticket() == old(
            writer,
        ).next_ticket() && final(writer).next_serving() == old(writer).next_serving()
            && final(writer).data() == old(writer).data(),
        old(writer).is_free() ==> {
            &&& crate::mutex::one_round(*old(writer), *final(writer))
            &&& r is Some ==> r == Some(msg@.len() as usize) && final(writer).data().accepted()
                == old(writer).data().accepted() + msg@
            &&& exists|k: int|
                0 <= k <= msg@.len() && final(writer).data().accepted() == old(
                    writer,
                ).data().accepted() + msg@.subrange(0, k)
            &&& msg@.len() == 0 ==> r == Some(0usize)
            &&& old(writer).data().replies().is_prefix_of(final(writer).data().replies())
            &&& whole_write_replies(
                log_since(old(writer).data().replies(), final(writer).data().replies()),
                msg@.len() as int,
                r is Some,
            )
            &&& old(writer).data().offered().is_prefix_of(final(writer).data().offered())
            &&& offers_follow_replies(
                log_since(old(writer).data().offered(), final(writer).data().offered()),
                log_since(old(writer).data().replies(), final(writer).data().replies()),
                msg@,
            )
            &&& final(writer).data().flushes() == old(writer).data().flushes()
            &&& old(writer).data().never_fails() ==> r == Some(msg@.len() as usize)
        },
{
    let mut attempt: u32 = 0;
    while attempt < PRINTK_ATTEMPTS
        invariant
            attempt <= PRINTK_ATTEMPTS,
            writer.next_ticket() == old(writer).next_ticket(),
            writer.next_serving() == old(writer).next_serving(),
            writer.data() == old(writer).data(),
            attempt > 0 ==> !old(writer).is_free(),
        decreases PRINTK_ATTEMPTS - attempt,
    {
        match writer.try_lock() {
            None => {
                crate::sched::yield_now();
            },
            Some(mut g) => {
                let r = printk_to(g.get_mut(), msg);
                g.unlock();
                return r;
            },
        }
        attempt = attempt + 1;
    }
    None
}

} // verus!
