//! x86_64 structures: saved registers, stack frames, the interrupt
//! descriptor table, page tables, VGA colours and the multiboot2 header as
//! this architecture lays it out.
pub mod boot;

use vstd::prelude::*;
use x86_64::structures::idt::InterruptDescriptorTable;
use x86_64::structures::paging::page_table::PageTableEntry;

verus! {

#[verifier::external_type_specification]
#[verifier::external_body]
pub struct ExInterruptDescriptorTable(InterruptDescriptorTable);

#[verifier::external_type_specification]
#[verifier::external_body]
pub struct ExPageTableEntry(PageTableEntry);

#[verifier::external_type_specification]
#[verifier::external_body]
#[verifier::reject_recursive_types(F)]
pub struct ExIdtEntry<F>(x86_64::structures::idt::Entry<F>);

#[verifier::external_type_specification]
#[verifier::external_body]
pub struct ExHandlerFunc(x86_64::structures::idt::HandlerFunc);

/// The interrupt vectors whose entries in the table are present.
pub uninterp spec fn idt_present_vectors(t: InterruptDescriptorTable) -> Set<int>;

/// `InterruptDescriptorTable::new`: "a new IDT filled with non-present
/// entries", as the crate documents it; the source sets every entry to
/// `Entry::missing()`, whose present bit is clear.
#[verifier::external_body]
fn fresh_idt() -> (r: InterruptDescriptorTable)
    ensures
        idt_present_vectors(r) == Set::<int>::empty(),
{
    InterruptDescriptorTable::new()
}

/// The interrupt descriptor table.
pub struct Idt {
    inner: InterruptDescriptorTable,
}

impl Idt {
    /// The table held.
    pub closed spec fn table(&self) -> InterruptDescriptorTable {
        self.inner
    }

    /// Constructs the interrupt descriptor table: no entry is present yet.
    pub fn new() -> (r: Idt)
        ensures
            idt_present_vectors(r.table()) == Set::<int>::empty(),
    {
        let inter = fresh_idt();
        Idt { inner: inter }
    }

    /// Constructs an interrupt table with all the entries empty.
    pub fn empty() -> (r: Idt)
        ensures
            idt_present_vectors(r.table()) == Set::<int>::empty(),
    {
        Idt { inner: fresh_idt() }
    }

    /// The table.
    pub fn as_ref(&self) -> (r: &InterruptDescriptorTable)
        ensures
            *r == self.table(),
    {
        &self.inner
    }

    /// The table, to modify any of its entries.
    pub fn as_mut(&mut self) -> (r: &mut InterruptDescriptorTable)
        ensures
            *r == old(self).table(),
            final(self).table() == *final(r),
    {
        &mut self.inner
    }
}

/// A page-aligned table of 512 page table entries.
pub struct PageTable {
    /// The entries.
    pub entries: [PageTableEntry; 512],
}

/// A VGA text-mode colour code.
#[derive(Debug, Clone, Copy, PartialEq, Eq, Structural)]
pub struct ColorCode(pub u8);

/// The callee-saved registers of x86_64 and the instruction pointer.
#[derive(Clone)]
pub struct RegistersInner {
    pub rbx: usize,
    pub rsp: usize,
    pub rbp: usize,
    pub r12: usize,
    pub r13: usize,
    pub r14: usize,
    pub r15: usize,
    pub rip: usize,
}

/// Whether every register of `r` is zero.
pub open spec fn registers_zeroed(r: RegistersInner) -> bool {
    &&& r.rbx == 0
    &&& r.rsp == 0
    &&& r.rbp == 0
    &&& r.r12 == 0
    &&& r.r13 == 0
    &&& r.r14 == 0
    &&& r.r15 == 0
    &&& r.rip == 0
}

impl Default for RegistersInner {
    fn default() -> (r: RegistersInner)
        ensures
            registers_zeroed(r),
    {
        RegistersInner { rbx: 0, rsp: 0, rbp: 0, r12: 0, r13: 0, r14: 0, r15: 0, rip: 0 }
    }
}

/// A saved register set.
pub struct Registers(pub [RegistersInner; 1]);

impl core::ops::Deref for Registers {
    type Target = RegistersInner;

    fn deref(&self) -> (r: &RegistersInner)
        ensures
            *r == self.0@[0],
    {
        &self.0[0]
    }
}

impl Default for Registers {
    fn default() -> (r: Registers)
        ensures
            registers_zeroed(r.0@[0]),
    {
        Registers([RegistersInner::default()])
    }
}

/// A saved execution context.
pub struct StackFrame {
    /// The saved registers.
    pub regs: Registers,
}

impl Default for StackFrame {
    fn default() -> (r: StackFrame)
        ensures
            registers_zeroed(r.regs.0@[0]),
    {
        StackFrame { regs: Registers::default() }
    }
}

/// Saves the current context into `out`. Returns `false` on normal
/// execution; `true` only when execution comes back through a restore.
pub fn save_context(out: &mut StackFrame) -> (r: bool)
    ensures
        r == false,
        *final(out) == *old(out),
{
    false
}

/// One link of a frame-pointer chain.
pub struct StackTrace {
    /// The address of the caller's link: the base of the stack frame.
    pub ebp: usize,
    /// The program counter.
    pub eip: u64,
}

} // verus!
