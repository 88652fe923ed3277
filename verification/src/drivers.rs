//! Core interfaces for drivers: their bookkeeping object, their memory, the
//! byte-sink trait they implement, and the generic fall-back devices.
use vstd::prelude::*;
use vstd::string::StringSliceAdditionalSpecFns;
use crate::decimal::{decimal, hex, push_decimal, push_hex};

verus! {

#[verifier::external_type_specification]
#[verifier::external_body]
pub struct ExFmtError(core::fmt::Error);

/// `core::fmt::Error::default()`: the formatting error, which carries
/// nothing.
#[verifier::external_body]
fn fmt_error() -> (r: core::fmt::Error) {
    core::fmt::Error::default()
}

/// An error of a device. No error of this kind is defined yet, and no value
/// of it can be made outside this module.
#[derive(Debug)]
pub struct DeviceError {
    _none: (),
}

/// An error while bringing a device up.
#[derive(Debug)]
pub enum DeviceInitError {
    /// The driver is already loaded; holds the driver's identifier.
    AlreadyInitialized(&'static str),
    /// Some other error relating to the driver.
    Other(DeviceError),
}

impl DeviceInitError {
    /// The text this error displays as.
    ///
    /// Device errors have no text yet.
    pub fn message(&self) -> (r: String)
        requires
            self is AlreadyInitialized,
        ensures
            self matches DeviceInitError::AlreadyInitialized(name) && r@ == name@
                + " is already initialized and loaded"@,
    {
        match self {
            DeviceInitError::AlreadyInitialized(driver_name) => {
                let mut m = String::from_str(driver_name);
                m.append(" is already initialized and loaded");
                m
            },
            DeviceInitError::Other(_) => String::new(),
        }
    }
}

/// The generic debug port to fall back to.
pub struct DebugPort(());

impl DebugPort {
    /// The debug port.
    pub fn new() -> (r: Self) {
        DebugPort(())
    }
}

/// The generic graphics port to fall back to.
pub struct GraphicsPort {}

/// What writing the whole of a buffer does with the reply to writing `rest`,
/// the part not yet written: go on with the part after the bytes written
/// (`Some`), or stop with a failure (`None`) when the reply is an error or
/// reports that nothing was written.
pub fn write_all_step<'a>(reply: Option<usize>, rest: &'a [u8]) -> (r: Option<&'a [u8]>)
    requires
        reply matches Some(n) ==> n <= rest@.len(),
    ensures
        match reply {
            Some(n) => if n == 0 {
                r is None
            } else {
                r matches Some(next) && next@ == rest@.subrange(n as int, rest@.len() as int)
            },
            None => r is None,
        },
{
    match reply {
        Some(0) => None,
        Some(n) => Some(&rest[n..rest.len()]),
        None => None,
    }
}

/// What a log that read `before` has gained, now that it reads `after`.
pub open spec fn log_since<A>(before: Seq<A>, after: Seq<A>) -> Seq<A> {
    after.subrange(before.len() as int, after.len() as int)
}

/// How many bytes a run of replies to writes reports as written: the sum of
/// the counts in its `Some` replies.
pub open spec fn reported_total(replies: Seq<Option<usize>>) -> int
    decreases replies.len(),
{
    if replies.len() == 0 {
        0
    } else {
        reported_total(replies.drop_last()) + match replies.last() {
            Some(n) => n as int,
            None => 0,
        }
    }
}

/// Whether every reply of a run reports at least one byte written.
pub open spec fn all_progress(replies: Seq<Option<usize>>) -> bool {
    forall|i: int| 0 <= i < replies.len() ==> (#[trigger] replies[i] matches Some(n) && n > 0)
}

/// How writing a buffer of `len` bytes whole goes, told by the replies to
/// its writes, in order. It succeeds (`ok`) when every reply reports at least
/// one byte and together they report all `len`. It fails when every reply but
/// the last does so, together reporting fewer than `len`, and the last is an
/// error or reports nothing written.
pub open spec fn whole_write_replies(calls: Seq<Option<usize>>, len: int, ok: bool) -> bool {
    if ok {
        all_progress(calls) && reported_total(calls) == len
    } else {
        &&& calls.len() > 0
        &&& all_progress(calls.drop_last())
        &&& reported_total(calls.drop_last()) < len
        &&& (calls.last() is None || calls.last() == Some(0usize))
    }
}

/// Whether the writes of a whole-buffer write, by what they were offered and
/// what they replied, in order, were each offered the part of `buf` not yet
/// reported written: the first the whole of it, each later one what follows
/// the bytes that the replies before it report.
pub open spec fn offers_follow_replies(
    offers: Seq<Seq<u8>>,
    replies: Seq<Option<usize>>,
    buf: Seq<u8>,
) -> bool {
    &&& offers.len() == replies.len()
    &&& forall|i: int|
        0 <= i < offers.len() ==> #[trigger] offers[i] == buf.subrange(
            reported_total(replies.subrange(0, i)),
            buf.len() as int,
        )
}

/// A further write, offered what the replies so far leave of `buf`, keeps
/// the offers following the replies, whatever it replies.
proof fn lemma_offers_extend(
    offers: Seq<Seq<u8>>,
    replies: Seq<Option<usize>>,
    buf: Seq<u8>,
    reply: Option<usize>,
)
    requires
        offers_follow_replies(offers, replies, buf),
    ensures
        offers_follow_replies(
            offers.push(buf.subrange(reported_total(replies), buf.len() as int)),
            replies.push(reply),
            buf,
        ),
{
    let next = replies.push(reply);
    assert(next.subrange(0, replies.len() as int) =~= replies);
    assert forall|i: int| 0 <= i < replies.len() implies next.subrange(0, i) =~= replies.subrange(
        0,
        i,
    ) by {}
}

/// A sink of bytes.
///
/// `accepted` is what the sink has taken so far, in order; `offered` and
/// `replies` are what each of its writes was handed and replied, in order;
/// `flushes` counts its flushes. A write takes a prefix of the
/// buffer; on success that prefix is as long as it reports. A writer that
/// `never_fails` takes every buffer whole.
pub trait Write {
    /// The bytes taken so far.
    spec fn accepted(&self) -> Seq<u8>;

    /// The replies of the writes so far, oldest first.
    spec fn replies(&self) -> Seq<Option<usize>>;

    /// The buffers handed to the writes so far, oldest first.
    spec fn offered(&self) -> Seq<Seq<u8>>;

    /// How many flushes there have been so far.
    spec fn flushes(&self) -> nat;

    /// Whether every write takes the whole buffer and every flush succeeds;
    /// a writer that does not say so promises nothing of the kind.
    open spec fn never_fails(&self) -> bool {
        false
    }

    /// Writes a buffer into the writer. `Some(n)` is how many bytes were
    /// written; `None` is an error.
    fn write(&mut self, buf: &[u8]) -> (r: Option<usize>)
        ensures
            match r {
                Some(n) => n <= buf@.len() && final(self).accepted() == old(self).accepted()
                    + buf@.subrange(0, n as int),
                None => exists|k: int|
                    0 <= k <= buf@.len() && final(self).accepted() == old(self).accepted()
                        + buf@.subrange(0, k),
            },
            final(self).replies() == old(self).replies().push(r),
            final(self).offered() == old(self).offered().push(buf@),
            final(self).flushes() == old(self).flushes(),
            old(self).never_fails() ==> r == Some(buf@.len() as usize) && final(self).never_fails(),
    ;

    /// Flushes the internal buffer into the device. `None` is an error.
    fn flush(&mut self) -> (r: Option<()>)
        ensures
            final(self).accepted() == old(self).accepted(),
            final(self).replies() == old(self).replies(),
            final(self).offered() == old(self).offered(),
            final(self).flushes() == old(self).flushes() + 1,
            old(self).never_fails() ==> r == Some(()) && final(self).never_fails(),
    ;

    /// Attempts to write the whole buffer: `Some(())` once all of it is
    /// written, `None` when a write fails or writes nothing.
    ///
    /// Each write is handed the part not yet written, starting with the
    /// whole buffer, and each reply is dealt with by [`write_all_step`]. An
    /// empty buffer succeeds without a write; there is at most one write for
    /// each byte of the buffer.
    fn write_all(&mut self, buf: &[u8]) -> (r: Option<()>)
        ensures
            buf@.len() == 0 ==> r == Some(()) && final(self).accepted() == old(self).accepted(),
            r is Some ==> final(self).accepted() == old(self).accepted() + buf@,
            exists|k: int|
                0 <= k <= buf@.len() && final(self).accepted() == old(self).accepted()
                    + buf@.subrange(0, k),
            old(self).replies().is_prefix_of(final(self).replies()),
            whole_write_replies(
                log_since(old(self).replies(), final(self).replies()),
                buf@.len() as int,
                r is Some,
            ),
            old(self).offered().is_prefix_of(final(self).offered()),
            offers_follow_replies(
                log_since(old(self).offered(), final(self).offered()),
                log_since(old(self).replies(), final(self).replies()),
                buf@,
            ),
            final(self).flushes() == old(self).flushes(),
            final(self).replies().len() - old(self).replies().len() <= buf@.len(),
            old(self).never_fails() ==> r == Some(()) && final(self).never_fails(),
    {
        let mut rest: &[u8] = buf;
        let ghost done: int = 0;
        let ghost log: Seq<Option<usize>> = Seq::empty();
        let ghost offers: Seq<Seq<u8>> = Seq::empty();
        assert(old(self).replies() + log =~= old(self).replies());
        assert(old(self).offered() + offers =~= old(self).offered());
        while rest.len() > 0
            invariant
                0 <= done <= buf@.len(),
                rest@ == buf@.subrange(done, buf@.len() as int),
                self.accepted() == old(self).accepted() + buf@.subrange(0, done),
                self.replies() == old(self).replies() + log,
                self.offered() == old(self).offered() + offers,
                self.flushes() == old(self).flushes(),
                offers_follow_replies(offers, log, buf@),
                all_progress(log),
                reported_total(log) == done,
                log.len() <= done,
                old(self).never_fails() ==> self.never_fails(),
            decreases rest@.len(),
        {
            let ghost mid = self.accepted();
            let ghost before = rest@;
            let reply = self.write(rest);
            proof {
                if let Some(n) = reply {
                    assert(buf@.subrange(0, done) + before.subrange(0, n as int) =~= buf@.subrange(
                        0,
                        done + n,
                    ));
                } else {
                    let k = choose|k: int|
                        0 <= k <= before.len() && self.accepted() == mid + before.subrange(0, k);
                    assert(buf@.subrange(0, done) + before.subrange(0, k) =~= buf@.subrange(
                        0,
                        done + k,
                    ));
                }
                assert(log.push(reply).drop_last() =~= log);
                assert(self.replies() =~= old(self).replies() + log.push(reply));
                assert(log_since(old(self).replies(), self.replies()) =~= log.push(reply));
                lemma_offers_extend(offers, log, buf@, reply);
                assert(self.offered() =~= old(self).offered() + offers.push(before));
                assert(log_since(old(self).offered(), self.offered()) =~= offers.push(before));
            }
            match write_all_step(reply, rest) {
                None => {
                    return None;
                },
                Some(next) => {
                    let n = reply.unwrap();
                    rest = next;
                    proof {
                        done = done + n;
                        log = log.push(reply);
                        offers = offers.push(before);
                    }
                    assert(rest@ =~= buf@.subrange(done, buf@.len() as int));
                },
            }
        }
        assert(buf@.subrange(0, buf@.len() as int) =~= buf@);
        assert(log_since(old(self).replies(), self.replies()) =~= log);
        assert(log_since(old(self).offered(), self.offered()) =~= offers);
        Some(())
    }

    /// Writes the whole string, as text formatting does: an error exactly
    /// when [`Write::write_all`] fails.
    fn write_str(&mut self, s: &str) -> (r: Result<(), core::fmt::Error>)
        ensures
            s.spec_bytes().len() == 0 ==> r is Ok && final(self).accepted() == old(
                self,
            ).accepted(),
            r is Ok ==> final(self).accepted() == old(self).accepted() + s.spec_bytes(),
            exists|k: int|
                0 <= k <= s.spec_bytes().len() && final(self).accepted() == old(self).accepted()
                    + s.spec_bytes().subrange(0, k),
            old(self).replies().is_prefix_of(final(self).replies()),
            whole_write_replies(
                log_since(old(self).replies(), final(self).replies()),
                s.spec_bytes().len() as int,
                r is Ok,
            ),
            old(self).offered().is_prefix_of(final(self).offered()),
            offers_follow_replies(
                log_since(old(self).offered(), final(self).offered()),
                log_since(old(self).replies(), final(self).replies()),
                s.spec_bytes(),
            ),
            final(self).flushes() == old(self).flushes(),
            final(self).replies().len() - old(self).replies().len() <= s.spec_bytes().len(),
            old(self).never_fails() ==> r is Ok && final(self).never_fails(),
    {
        match self.write_all(s.as_bytes()) {
            None => Err(fmt_error()),
            Some(_) => Ok(()),
        }
    }
}

/// A writer that ignores everything written to it.
#[derive(Clone, Copy)]
#[non_exhaustive]
pub struct NoOp {
    taken: Ghost<Seq<u8>>,
    log: Ghost<Seq<Option<usize>>>,
    handed: Ghost<Seq<Seq<u8>>>,
    flushed: Ghost<nat>,
}

/// A writer that ignores any data written to it.
pub fn no_op() -> (r: NoOp)
    ensures
        r.accepted() == Seq::<u8>::empty(),
        r.replies() == Seq::<Option<usize>>::empty(),
        r.offered() == Seq::<Seq<u8>>::empty(),
        r.flushes() == 0,
{
    NoOp {
        taken: Ghost(Seq::empty()),
        log: Ghost(Seq::empty()),
        handed: Ghost(Seq::empty()),
        flushed: Ghost(0),
    }
}

impl Default for NoOp {
    /// A writer that has taken nothing yet.
    fn default() -> (r: NoOp)
        ensures
            r.accepted() == Seq::<u8>::empty(),
            r.replies() == Seq::<Option<usize>>::empty(),
            r.offered() == Seq::<Seq<u8>>::empty(),
            r.flushes() == 0,
    {
        no_op()
    }
}

impl Write for NoOp {
    closed spec fn accepted(&self) -> Seq<u8> {
        self.taken@
    }

    closed spec fn replies(&self) -> Seq<Option<usize>> {
        self.log@
    }

    closed spec fn offered(&self) -> Seq<Seq<u8>> {
        self.handed@
    }

    closed spec fn flushes(&self) -> nat {
        self.flushed@
    }

    open spec fn never_fails(&self) -> bool {
        true
    }

    /// Takes the whole buffer.
    fn write(&mut self, buf: &[u8]) -> (r: Option<usize>)
        ensures
            r == Some(buf@.len() as usize),
    {
        proof {
            self.taken = Ghost(self.taken@ + buf@);
            self.log = Ghost(self.log@.push(Some(buf.len())));
            self.handed = Ghost(self.handed@.push(buf@));
        }
        assert(buf@.subrange(0, buf@.len() as int) =~= buf@);
        Some(buf.len())
    }

    /// Always succeeds.
    fn flush(&mut self) -> (r: Option<()>)
        ensures
            r == Some(()),
    {
        proof {
            self.flushed = Ghost(self.flushed@ + 1);
        }
        Some(())
    }
}

/// What an [`Opaque`] cell holds.
pub enum OpaqueContents<T> {
    /// A value.
    Value(T),
    /// Uninitialized memory.
    Uninit,
    /// Memory whose bytes are all zero.
    Zeroed,
}

/// A cell whose contents are opaque to the kernel and must not move.
pub struct Opaque<T> {
    value: OpaqueContents<T>,
}

impl<T> View for Opaque<T> {
    type V = OpaqueContents<T>;

    closed spec fn view(&self) -> OpaqueContents<T> {
        self.value
    }
}

impl<T> Opaque<T> {
    /// A cell holding `value`.
    pub fn new(value: T) -> (r: Self)
        ensures
            r@ == OpaqueContents::Value(value),
    {
        Opaque { value: OpaqueContents::Value(value) }
    }

    /// A cell of uninitialized memory.
    pub fn unit() -> (r: Self)
        ensures
            r@ == OpaqueContents::<T>::Uninit,
    {
        Opaque { value: OpaqueContents::Uninit }
    }

    /// A cell whose bytes are all zero.
    pub fn zeroed() -> (r: Self)
        ensures
            r@ == OpaqueContents::<T>::Zeroed,
    {
        Opaque { value: OpaqueContents::Zeroed }
    }
}

/// The life of a driver.
#[derive(PartialEq, Eq, Debug, Structural)]
pub enum DriverState {
    /// Not done initializing.
    NotDone,
    /// The driver is fully live and formed.
    Live,
    /// Unloading for one reason or another.
    Unloading,
}

impl Default for DriverState {
    fn default() -> (r: DriverState)
        ensures
            r == DriverState::NotDone,
    {
        DriverState::NotDone
    }
}

impl DriverState {
    /// Turns the state into [`DriverState::Live`], whatever it was.
    pub fn done(&mut self)
        ensures
            *final(self) == DriverState::Live,
    {
        *self = DriverState::Live
    }
}

/// The kernel's record of a driver.
pub struct DriverObject<'obj> {
    /// The driver's identifier.
    pub name: &'obj str,
    /// Where the driver is in its life.
    pub state: DriverState,
    /// The address of the driver's drop code; zero for none.
    unload: usize,
}

impl<'obj> DriverObject<'obj> {
    /// The address of the drop code; zero for none.
    pub closed spec fn unload_addr(&self) -> usize {
        self.unload
    }

    /// The driver's identifier.
    pub closed spec fn name_of(&self) -> &'obj str {
        self.name
    }

    /// Where the driver is in its life.
    pub closed spec fn state_of(&self) -> DriverState {
        self.state
    }

    /// Records the driver's drop code, by its address.
    pub fn change_drop(&mut self, drop: usize)
        ensures
            final(self).unload_addr() == drop,
            final(self).name_of() == old(self).name_of(),
            final(self).state_of() == old(self).state_of(),
    {
        self.unload = drop
    }

    /// The driver's identifier.
    pub fn get_name(&self) -> (r: &str)
        ensures
            r == self.name_of(),
    {
        self.name
    }
}

impl<'obj> Default for DriverObject<'obj> {
    /// A record with an empty name, not done, and no drop code.
    fn default() -> (r: Self)
        ensures
            r.name_of()@ == ""@,
            r.state_of() == DriverState::NotDone,
            r.unload_addr() == 0,
    {
        DriverObject { name: "", state: DriverState::NotDone, unload: 0 }
    }
}

/// A region of memory held by a driver.
pub struct DriverMemory {
    base: usize,
    size: usize,
    is_rox: bool,
}

/// The text `Debug` gives a boolean.
pub open spec fn bool_text(b: bool) -> Seq<char> {
    if b {
        "true"@
    } else {
        "false"@
    }
}

/// The debug rendering of a driver's memory: the base address in hex and
/// the size in decimal; in the alternate form, one field a line, the span
/// of addresses in place of base and size.
pub open spec fn driver_memory_debug(base: nat, size: nat, is_rox: bool, alternate: bool) -> Seq<
    char,
> {
    if alternate {
        "DriverMemory {\n    layout: [0x"@ + hex(base) + "..0x"@ + hex(base + size) + "],\n    is_rox: "@
            + bool_text(is_rox) + ",\n    ..\n}"@
    } else {
        "DriverMemory { base: 0x"@ + hex(base) + ", size: "@ + decimal(size) + ", is_rox: "@
            + bool_text(is_rox) + ", .. }"@
    }
}

impl DriverMemory {
    /// The address of the first byte.
    pub closed spec fn base(&self) -> usize {
        self.base
    }

    /// The size in bytes.
    pub closed spec fn size(&self) -> usize {
        self.size
    }

    /// Whether the region is read-only and executable.
    pub closed spec fn is_rox(&self) -> bool {
        self.is_rox
    }

    /// The region is not at null, is smaller than `isize::MAX`, and ends
    /// within the address space.
    #[verifier::type_invariant]
    spec fn inv(self) -> bool {
        &&& self.base != 0
        &&& self.size < isize::MAX
        &&& self.base + self.size <= usize::MAX
    }

    /// The region of `size` bytes from `base`.
    ///
    /// `base` is not null, the region lies within the address space, and
    /// `size` is smaller than `isize::MAX`.
    pub fn new(base: usize, size: usize, is_rox: bool) -> (r: DriverMemory)
        requires
            base != 0,
            size < isize::MAX,
            base + size <= usize::MAX,
        ensures
            r.base() == base,
            r.size() == size,
            r.is_rox() == is_rox,
    {
        DriverMemory { base, size, is_rox }
    }

    /// The debug rendering, `{:?}` or, when `alternate`, `{:#?}`.
    pub fn debug_text(&self, alternate: bool) -> (r: String)
        ensures
            r@ == driver_memory_debug(self.base() as nat, self.size() as nat, self.is_rox(), alternate),
    {
        proof { use_type_invariant(self); }
        let rox = if self.is_rox { "true" } else { "false" };
        if alternate {
            let outer = self.base + self.size;
            let mut m = String::from_str("DriverMemory {\n    layout: [0x");
            push_hex(&mut m, self.base as u64);
            m.append("..0x");
            push_hex(&mut m, outer as u64);
            m.append("],\n    is_rox: ");
            m.append(rox);
            m.append(",\n    ..\n}");
            m
        } else {
            let mut m = String::from_str("DriverMemory { base: 0x");
            push_hex(&mut m, self.base as u64);
            m.append(", size: ");
            push_decimal(&mut m, self.size as u64);
            m.append(", is_rox: ");
            m.append(rox);
            m.append(", .. }");
            m
        }
    }
}

impl Default for DriverMemory {
    /// An empty region at a dangling, non-null address.
    fn default() -> (r: Self)
        ensures
            r.base() == 1,
            r.size() == 0,
            r.is_rox(),
    {
        DriverMemory { base: 1, size: 0, is_rox: true }
    }
}

/// A kernel driver: a unique handle, its dependencies, and how it is brought
/// up.
pub trait Driver: Sized {
    /// A unique handle for the driver.
    const NAME: &'static str;

    /// The handles of the drivers this one depends on; none by default.
    fn depends() -> (r: &'static [&'static str])
        default_ensures
            r@.len() == 0,
    {
        &[]
    }

    /// Brings the driver up.
    fn init(obj: &mut DriverObject<'_>) -> Result<Self, DeviceError>;
}

/// Records driver `T` in `obj`: its identifier, and the address of the code
/// that drops a value of it.
pub fn store_into<T: Driver>(obj: &mut DriverObject<'static>, drop_addr: usize)
    ensures
        final(obj).name_of() == T::NAME,
        final(obj).unload_addr() == drop_addr,
        final(obj).state_of() == old(obj).state_of(),
{
    obj.unload = drop_addr;
    obj.name = T::NAME;
}

} // verus!
