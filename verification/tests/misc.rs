use oes::cmdline::CmdLine;
use oes::device::Driver;
use oes::drivers::no_op;
use oes::mutex::Mutex;
use oes::printk::{printk, printk_to};
use oes::x86::{save_context, Idt, StackFrame};

#[test]
fn printk_writes_through_a_free_lock() {
    let mut w = Mutex::new(no_op());
    assert_eq!(printk(&mut w, b"hello"), Some(5));
    assert_eq!(printk(&mut w, b""), Some(0));
    let mut n = no_op();
    assert_eq!(printk_to(&mut n, b"abc"), Some(3));
}

#[test]
fn printk_gives_up_on_a_held_lock() {
    let mut w = Mutex::new(no_op());
    let g = w.try_lock().unwrap();
    let _leaked = oes::mutex::MutexGuard::leak(g);
    assert_eq!(printk(&mut w, b"hello"), None);
    w.force_unlock();
    assert_eq!(printk(&mut w, b"hello"), Some(5));
}

#[test]
fn save_context_returns_false() {
    let mut f = StackFrame::default();
    assert!(!save_context(&mut f));
    assert_eq!(f.regs.rip, 0);
}

#[test]
fn constructors() {
    let _d = Driver::new("ps2");
    let _c = CmdLine::default();
    let mut idt = Idt::new();
    let _t = idt.as_mut();
    let _e = Idt::empty();
}
