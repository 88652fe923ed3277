//! A ticket lock: the classic mutex.
//!
//! Each locker draws the next ticket; the lock serves tickets in the order
//! they were drawn, and releasing passes it to the next ticket. Tickets are
//! 16-bit and wrap around.
//!
//! Here a lock is held through a unique borrow, so no other party can move the
//! served ticket while a locker waits: waiting ends at once or never.
use vstd::prelude::*;

verus! {

/// The ticket after `t`, wrapping around.
pub open spec fn next_ticket_of(t: u16) -> u16 {
    if t == u16::MAX {
        0
    } else {
        (t + 1) as u16
    }
}

/// The classic mutex, as a ticket lock.
#[derive(Debug)]
pub struct Mutex<T> {
    /// The ticket the next locker draws.
    next_ticket: u16,
    /// The ticket being served.
    next_serving: u16,
    data: T,
}

/// Exclusive access to the data of a [`Mutex`], for the holder of a ticket.
///
/// The fields are the lock's own: the ticket held, the lock's served-ticket
/// counter, and its data. Releasing writes the counter.
pub struct MutexGuard<'a, T> {
    /// The ticket held.
    pub ticket: u16,
    /// The lock's served-ticket counter.
    pub next_serving: &'a mut u16,
    /// The lock's data.
    pub data: &'a mut T,
}

impl<T> Mutex<T> {
    /// The ticket the next locker draws.
    pub closed spec fn next_ticket(&self) -> u16 {
        self.next_ticket
    }

    /// The ticket being served.
    pub closed spec fn next_serving(&self) -> u16 {
        self.next_serving
    }

    /// The protected value.
    pub closed spec fn data(&self) -> T {
        self.data
    }

    /// Whether no ticket is outstanding: the next ticket drawn is served at
    /// once.
    pub open spec fn is_free(&self) -> bool {
        self.next_serving() == self.next_ticket()
    }

    /// A free lock around `value`.
    pub fn new(value: T) -> (r: Mutex<T>)
        ensures
            r.next_ticket() == 0,
            r.next_serving() == 0,
            r.data() == value,
    {
        Mutex { next_ticket: 0, next_serving: 0, data: value }
    }

    /// Draws a ticket and waits until it is served.
    ///
    /// The lock must be free: otherwise the ticket is never served and this
    /// never returns.
    pub fn lock(&mut self) -> (g: MutexGuard<'_, T>)
        requires
            old(self).is_free(),
        ensures
            g.ticket == old(self).next_ticket(),
            g.ticket == *g.next_serving,
            *g.data == old(self).data(),
            *g.next_serving == old(self).next_serving(),
            final(self).next_ticket() == next_ticket_of(old(self).next_ticket()),
            final(self).next_serving() == *final(g.next_serving),
            final(self).data() == *final(g.data),
    {
        let ticket = self.next_ticket;
        self.next_ticket = self.next_ticket.wrapping_add(1);
        while self.next_serving != ticket
            invariant
                self.next_serving == ticket,
            decreases 0int,
        {
            crate::sched::yield_now();
        }
        MutexGuard { ticket, next_serving: &mut self.next_serving, data: &mut self.data }
    }

    /// Takes the lock only if it is free, without waiting: draws the next
    /// ticket, which is then the one served. When the lock is held, hands
    /// out nothing and leaves the lock as it was.
    pub fn try_lock(&mut self) -> (g: Option<MutexGuard<'_, T>>)
        ensures
            old(self).is_free() ==> (g matches Some(g) && {
                &&& g.ticket == old(self).next_ticket()
                &&& g.ticket == *g.next_serving
                &&& *g.data == old(self).data()
                &&& *g.next_serving == old(self).next_serving()
                &&& final(self).next_ticket() == next_ticket_of(old(self).next_ticket())
                &&& final(self).next_serving() == *final(g.next_serving)
                &&& final(self).data() == *final(g.data)
            }),
            !old(self).is_free() ==> g is None && final(self).next_ticket() == old(
                self,
            ).next_ticket() && final(self).next_serving() == old(self).next_serving()
                && final(self).data() == old(self).data(),
    {
        if self.next_ticket != self.next_serving {
            return None;
        }
        let ticket = self.next_ticket;
        self.next_ticket = self.next_ticket.wrapping_add(1);
        Some(MutexGuard { ticket, next_serving: &mut self.next_serving, data: &mut self.data })
    }

    /// Consumes the lock, returning the value.
    pub fn into_inner(self) -> (r: T)
        ensures
            r == self.data(),
    {
        self.data
    }

    /// Borrows the value: a unique borrow of the lock means no one holds it.
    pub fn get_mut(&mut self) -> (r: &mut T)
        ensures
            *r == old(self).data(),
            final(self).data() == *final(r),
            final(self).next_ticket() == old(self).next_ticket(),
            final(self).next_serving() == old(self).next_serving(),
    {
        &mut self.data
    }

    /// Serves the next ticket, whoever holds the current one.
    pub fn force_unlock(&mut self)
        ensures
            final(self).next_serving() == next_ticket_of(old(self).next_serving()),
            final(self).next_ticket() == old(self).next_ticket(),
            final(self).data() == old(self).data(),
    {
        self.next_serving = self.next_serving.wrapping_add(1);
    }
}

impl<T: Default> Default for Mutex<T> {
    fn default() -> (r: Mutex<T>)
        ensures
            r.next_ticket() == 0,
            r.next_serving() == 0,
    {
        Mutex::new(T::default())
    }
}

impl<'a, T> MutexGuard<'a, T> {
    /// The protected value, to modify.
    pub fn get_mut(&mut self) -> (r: &mut T)
        ensures
            *r == *old(self).data,
            *final(self).data == *final(r),
            *final(final(self).data) == *final(old(self).data),
            final(self).next_serving == old(self).next_serving,
            final(self).ticket == old(self).ticket,
    {
        &mut *self.data
    }

    /// Releases the lock: the ticket after the one held is served next.
    pub fn unlock(self)
        ensures
            *final(self.next_serving) == next_ticket_of(self.ticket),
            *final(self.data) == *old(self.data),
    {
        *self.next_serving = self.ticket.wrapping_add(1);
    }

    /// Leaks the guard, yielding the data underneath: the lock stays held
    /// until [`Mutex::force_unlock`].
    pub fn leak(this: Self) -> (r: &'a mut T)
        ensures
            *r == *old(this.data),
            *final(this.data) == *final(r),
            *final(this.next_serving) == *old(this.next_serving),
    {
        this.data
    }
}

/// The ticket drawn `k` draws after ticket `t`.
pub open spec fn ticket_after(t: u16, k: nat) -> u16
    decreases k,
{
    if k == 0 {
        t
    } else {
        next_ticket_of(ticket_after(t, (k - 1) as nat))
    }
}

/// Drawing `k` tickets after `t` lands on `t + k` modulo 2^16.
pub proof fn lemma_ticket_after_mod(t: u16, k: nat)
    ensures
        ticket_after(t, k) as int == (t as int + k) % 65536,
    decreases k,
{
    if k == 0 {
        vstd::arithmetic::div_mod::lemma_small_mod(t as nat, 65536);
    } else {
        lemma_ticket_after_mod(t, (k - 1) as nat);
        let x = t as int + k - 1;
        vstd::arithmetic::div_mod::lemma_mod_bound(x, 65536);
        vstd::arithmetic::div_mod::lemma_add_mod_noop(x, 1, 65536);
        vstd::arithmetic::div_mod::lemma_small_mod(1, 65536);
        if x % 65536 == 65535 {
            vstd::arithmetic::div_mod::lemma_mod_self_0(65536);
        } else {
            vstd::arithmetic::div_mod::lemma_small_mod((x % 65536 + 1) as nat, 65536);
        }
    }
}

/// Fewer than 2^16 lockers drawing one after another never hold the same
/// ticket: the lock serves each of them in turn.
pub proof fn lemma_tickets_distinct(t: u16, i: nat, j: nat)
    requires
        i < j < 65536,
    ensures
        ticket_after(t, i) != ticket_after(t, j),
{
    lemma_ticket_after_mod(t, i);
    lemma_ticket_after_mod(t, j);
    let a = t as int + i;
    let b = t as int + j;
    if a % 65536 == b % 65536 {
        vstd::arithmetic::div_mod::lemma_mod_equivalence(b, a, 65536);
        vstd::arithmetic::div_mod::lemma_small_mod((b - a) as nat, 65536);
    }
}

/// After 2^16 draws the tickets come round to where they started.
pub proof fn lemma_tickets_wrap(t: u16)
    ensures
        ticket_after(t, 65536) == t,
{
    lemma_ticket_after_mod(t, 65536);
    vstd::arithmetic::div_mod::lemma_mod_add_multiples_vanish(t as int, 65536);
    vstd::arithmetic::div_mod::lemma_small_mod(t as nat, 65536);
}

/// One round of the lock from `before` to `after`: the lock was free, one
/// locker drew the next ticket and released it, and the lock is free again
/// with its next ticket one on. Taking a free lock with [`Mutex::lock`] or
/// [`Mutex::try_lock`] and then [`MutexGuard::unlock`] makes such a round.
pub open spec fn one_round<T>(before: Mutex<T>, after: Mutex<T>) -> bool {
    &&& before.is_free()
    &&& after.is_free()
    &&& after.next_ticket() == next_ticket_of(before.next_ticket())
}

/// Rounds of the lock one after another, from a free lock, serve the lockers
/// in the order they drew: the `i`-th round from ticket `t` serves ticket
/// `ticket_after(t, i)`, and after `k` rounds the lock is free with
/// `ticket_after(t, k)` next. Fewer than 2^16 rounds never serve one ticket
/// twice.
pub proof fn lemma_rounds_serve_in_turn<T>(states: Seq<Mutex<T>>)
    requires
        states.len() > 0,
        states[0].is_free(),
        forall|i: int| 0 <= i < states.len() - 1 ==> one_round(states[i], #[trigger] states[i + 1]),
    ensures
        forall|i: int|
            0 <= i < states.len() ==> (#[trigger] states[i]).next_ticket() == ticket_after(
                states[0].next_ticket(),
                i as nat,
            ),
        states.last().is_free(),
        forall|i: int, j: int|
            0 <= i < j < states.len() && j < 65536 ==> (#[trigger] states[i]).next_ticket()
                != (#[trigger] states[j]).next_ticket(),
    decreases states.len(),
{
    lemma_rounds_tickets(states);
    let t = states[0].next_ticket();
    assert forall|i: int, j: int|
        0 <= i < j < states.len() && j < 65536 implies (#[trigger] states[i]).next_ticket()
            != (#[trigger] states[j]).next_ticket() by {
        lemma_tickets_distinct(t, i as nat, j as nat);
    }
}

/// The tickets and the freedom of the lock along rounds of it.
proof fn lemma_rounds_tickets<T>(states: Seq<Mutex<T>>)
    requires
        states.len() > 0,
        states[0].is_free(),
        forall|i: int| 0 <= i < states.len() - 1 ==> one_round(states[i], #[trigger] states[i + 1]),
    ensures
        forall|i: int|
            0 <= i < states.len() ==> (#[trigger] states[i]).next_ticket() == ticket_after(
                states[0].next_ticket(),
                i as nat,
            ),
        states.last().is_free(),
    decreases states.len(),
{
    if states.len() > 1 {
        let front = states.drop_last();
        assert forall|i: int| 0 <= i < front.len() - 1 implies one_round(
            front[i],
            #[trigger] front[i + 1],
        ) by {
            assert(one_round(states[i], states[i + 1]));
        }
        lemma_rounds_tickets(front);
        let n = states.len() - 1;
        let m = n - 1;
        assert(front[m] == states[m]);
        assert(one_round(states[m], states[m + 1]));
        assert forall|i: int| 0 <= i < states.len() implies (#[trigger] states[i]).next_ticket()
            == ticket_after(states[0].next_ticket(), i as nat) by {
            if i < n {
                assert(front[i] == states[i]);
            } else {
                assert(ticket_after(states[0].next_ticket(), i as nat) == next_ticket_of(
                    ticket_after(states[0].next_ticket(), (i - 1) as nat),
                ));
            }
        }
    }
}

impl<'a, T> core::ops::Deref for MutexGuard<'a, T> {
    type Target = T;

    /// The protected value.
    fn deref(&self) -> (r: &T)
        ensures
            *r == *old(self.data),
    {
        self.data
    }
}

/// A lock whose served ticket is the one held, and whose next ticket is the
/// one after it, is not free: a leaked or unreleased guard keeps every later
/// locker out until the served ticket moves on.
pub proof fn lemma_held_lock_not_free(t: u16)
    ensures
        next_ticket_of(t) != t,
{
}

} // verus!
