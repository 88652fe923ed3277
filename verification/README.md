# oes

The verified core of a small hobby kernel, written in Verus.

- `src/` is the library. Its functions are verified, except a handful of
  small trusted wrappers (marked `external_body`) that call std, `spin` and
  `x86_64`, whose contracts state what those crates document. It holds kernel error
  numbers and what user space receives for them, the multiboot2 boot
  information (tag types, tags, the bootloader name), ASCII strings and their
  debug rendering, the driver record, driver memory and the byte-sink trait,
  a ticket lock, the rules a system-call declaration must follow, and the
  system-call table entries.
- `tests/` exercises the library on concrete values.
- `app/` holds what cannot be verified: reading declarations with `syn` for the
  `#[syscall]` attribute, the global printk writer behind a spin lock,
  processor hooks, and the serialisable form of the system-call kinds.
