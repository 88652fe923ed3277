//! Verified core of a small hobby kernel: error numbers, the multiboot2
//! boot-information model, ASCII strings, driver bookkeeping, a ticket lock
//! model and the checks applied to system-call declarations.

pub mod ascii;
pub mod cmdline;
pub mod decimal;
pub mod device;
pub mod drivers;
pub mod errno;
pub mod miri;
pub mod multiboot;
pub mod mutex;
pub mod printk;
pub mod refcount;
pub mod sched;
pub mod userspace;
pub mod x86;
pub mod syscall_check;
pub mod syscall_table;
