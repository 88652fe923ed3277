use oes::drivers::{
    no_op, DebugPort, DeviceInitError, DriverMemory, DriverObject, DriverState, Opaque, Write,
};

/// A writer that takes at most three bytes a call, can be told to fail or to
/// stall, and keeps its replies.
struct Chunky {
    out: Vec<u8>,
    fail_after: usize,
    stall: bool,
    seen: Vec<Option<usize>>,
    handed: Vec<Vec<u8>>,
    flushed: usize,
}

fn chunky(fail_after: usize) -> Chunky {
    Chunky {
        out: Vec::new(),
        fail_after,
        stall: false,
        seen: Vec::new(),
        handed: Vec::new(),
        flushed: 0,
    }
}

impl Write for Chunky {
    fn accepted(&self) -> vstd::seq::Seq<u8> {
        panic!("a specification item, not run")
    }

    fn replies(&self) -> vstd::seq::Seq<Option<usize>> {
        panic!("a specification item, not run")
    }

    fn offered(&self) -> vstd::seq::Seq<vstd::seq::Seq<u8>> {
        panic!("a specification item, not run")
    }

    fn flushes(&self) -> vstd::prelude::nat {
        panic!("a specification item, not run")
    }

    fn write(&mut self, buf: &[u8]) -> Option<usize> {
        self.handed.push(buf.to_vec());
        let reply = if self.out.len() >= self.fail_after {
            if self.stall { Some(0) } else { None }
        } else {
            let n = buf.len().min(3);
            self.out.extend_from_slice(&buf[..n]);
            Some(n)
        };
        self.seen.push(reply);
        reply
    }

    fn flush(&mut self) -> Option<()> {
        self.flushed += 1;
        Some(())
    }
}

#[test]
fn write_all_writes_everything_in_pieces() {
    let mut w = chunky(usize::MAX);
    assert_eq!(w.write_all(b"hello world"), Some(()));
    assert_eq!(w.out, b"hello world");
    assert_eq!(w.seen, vec![Some(3), Some(3), Some(3), Some(2)]);
    let handed: Vec<&[u8]> = w.handed.iter().map(|b| b.as_slice()).collect();
    assert_eq!(handed, vec![&b"hello world"[..], b"lo world", b"world", b"ld"]);
    assert_eq!(w.flushed, 0);
    assert_eq!(w.write_str(" again"), Ok(()));
    assert_eq!(w.out, b"hello world again");
}

#[test]
fn write_all_stops_at_a_failure() {
    let mut w = chunky(5);
    assert_eq!(w.write_all(b"hello world"), None);
    assert_eq!(w.out, b"hello ");
    assert_eq!(w.seen, vec![Some(3), Some(3), None]);
    assert!(w.write_str("x").is_err());
}

#[test]
fn write_all_stops_when_nothing_is_written() {
    let mut w = chunky(4);
    w.stall = true;
    assert_eq!(w.write_all(b"hello world"), None);
    assert_eq!(w.out, b"hello ");
    assert_eq!(w.seen, vec![Some(3), Some(3), Some(0)]);
    let handed: Vec<&[u8]> = w.handed.iter().map(|b| b.as_slice()).collect();
    assert_eq!(handed, vec![&b"hello world"[..], b"lo world", b"world"]);
}

#[test]
fn printk_to_reports_the_whole_message_or_nothing() {
    let mut w = chunky(usize::MAX);
    assert_eq!(oes::printk::printk_to(&mut w, b"kernel"), Some(6));
    assert_eq!(w.out, b"kernel");
    let mut f = chunky(2);
    assert_eq!(oes::printk::printk_to(&mut f, b"kernel"), None);
    assert_eq!(f.seen, vec![Some(3), None]);
}

#[test]
fn no_op_takes_everything() {
    let mut n = no_op();
    assert_eq!(n.write(b"abc"), Some(3));
    assert_eq!(n.write(b""), Some(0));
    assert_eq!(n.flush(), Some(()));
    assert_eq!(n.write_all(b"anything"), Some(()));
    assert_eq!(n.write_all(b""), Some(()));
}

#[test]
fn driver_state_done_goes_live() {
    let mut s = DriverState::Unloading;
    s.done();
    assert_eq!(s, DriverState::Live);
    let mut n = DriverState::NotDone;
    n.done();
    assert_eq!(n, DriverState::Live);
    assert_eq!(DriverState::default(), DriverState::NotDone);
}

#[test]
fn driver_object_records_name_and_drop() {
    let mut o = DriverObject::default();
    assert_eq!(o.get_name(), "");
    assert_eq!(o.state, DriverState::NotDone);
    o.name = "serial";
    o.change_drop(0x1000);
    assert_eq!(o.get_name(), "serial");
}

#[test]
fn driver_memory_and_opaque() {
    let _m = DriverMemory::new(0x2000, 4096, false);
    let _d = DriverMemory::default();
    let _a = Opaque::new(5u32);
    let _b: Opaque<u32> = Opaque::unit();
    let _c: Opaque<u32> = Opaque::zeroed();
    let _p = DebugPort::new();
}

#[test]
fn already_initialized_message() {
    let e = DeviceInitError::AlreadyInitialized("vga");
    assert_eq!(e.message(), "vga is already initialized and loaded");
}

/// An address, printed as std prints pointers: `0x` and lower-case hex.
struct Addr(usize);

impl core::fmt::Debug for Addr {
    fn fmt(&self, f: &mut core::fmt::Formatter<'_>) -> core::fmt::Result {
        f.write_str(&format!("{:#x}", self.0))
    }
}

struct Layout(usize, usize);

impl core::fmt::Debug for Layout {
    fn fmt(&self, f: &mut core::fmt::Formatter<'_>) -> core::fmt::Result {
        f.write_str(&format!("[{:?}..{:?}]", Addr(self.0), Addr(self.1)))
    }
}

/// The same fields, rendered by std's debug builders.
struct Mirror {
    base: usize,
    size: usize,
    is_rox: bool,
}

impl core::fmt::Debug for Mirror {
    fn fmt(&self, f: &mut core::fmt::Formatter<'_>) -> core::fmt::Result {
        let alt = f.alternate();
        let d = &mut f.debug_struct("DriverMemory");
        if alt {
            d.field("layout", &Layout(self.base, self.base + self.size));
        } else {
            d.field("base", &Addr(self.base)).field("size", &self.size);
        }
        d.field("is_rox", &self.is_rox).finish_non_exhaustive()
    }
}

#[test]
fn driver_memory_debug_matches_std_rendering() {
    assert_eq!(format!("{:?}", core::ptr::NonNull::<u8>::dangling()), "0x1");
    for (base, size, rox) in [(0x2000usize, 4096usize, false), (0xdead_beefusize, 0usize, true), (1usize, 17usize, true)] {
        let m = DriverMemory::new(base, size, rox);
        let mirror = Mirror { base, size, is_rox: rox };
        assert_eq!(m.debug_text(false), format!("{:?}", mirror));
        assert_eq!(m.debug_text(true), format!("{:#?}", mirror));
    }
    assert_eq!(
        DriverMemory::new(0x2000, 4096, false).debug_text(false),
        "DriverMemory { base: 0x2000, size: 4096, is_rox: false, .. }"
    );
    assert_eq!(
        DriverMemory::default().debug_text(true),
        "DriverMemory {\n    layout: [0x1..0x1],\n    is_rox: true,\n    ..\n}"
    );
}

struct Serial;

impl oes::drivers::Driver for Serial {
    const NAME: &'static str = "serial";

    fn init(_obj: &mut DriverObject<'_>) -> Result<Self, oes::drivers::DeviceError> {
        Ok(Serial)
    }
}

#[test]
fn store_into_records_the_driver() {
    let mut o = DriverObject::default();
    oes::drivers::store_into::<Serial>(&mut o, 0x4000);
    assert_eq!(o.get_name(), "serial");
    assert_eq!(o.state, DriverState::NotDone);
    assert_eq!(<Serial as oes::drivers::Driver>::depends().len(), 0);
}

#[test]
fn write_all_step_goes_on_or_stops() {
    let rest: &[u8] = b"abcdef";
    assert_eq!(oes::drivers::write_all_step(Some(2), rest), Some(&b"cdef"[..]));
    assert_eq!(oes::drivers::write_all_step(Some(6), rest), Some(&b""[..]));
    assert_eq!(oes::drivers::write_all_step(Some(0), rest), None);
    assert_eq!(oes::drivers::write_all_step(None, rest), None);
}

#[test]
fn write_all_of_nothing_writes_nothing() {
    let mut w = chunky(0);
    assert_eq!(w.write_all(b""), Some(()));
    assert_eq!(w.out, b"");
    assert!(w.seen.is_empty());
}
