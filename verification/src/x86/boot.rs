//! The multiboot2 structures as the x86 entry code lays them out.
use vstd::prelude::*;

verus! {


/// A tag: its type, flags and size.
#[derive(Debug, PartialEq, Eq, Structural)]
pub struct Tag {
    pub type_: u16,
    pub flags: u16,
    pub size: u32,
}

impl Tag {
    /// The tag that ends the list: type 0, no flags, 8 bytes.
    pub fn terminator() -> (r: Tag)
        ensures
            r == (Tag { type_: 0, flags: 0, size: 8 }),
    {
        Tag { type_: 0, flags: 0, size: 8 }
    }
}

impl Default for Tag {
    /// The terminating tag; see [`Tag::terminator`].
    fn default() -> (r: Tag)
        ensures
            r == (Tag { type_: 0, flags: 0, size: 8 }),
    {
        Tag::terminator()
    }
}

/// The fixed part of the boot information.
#[derive(Debug)]
pub struct Info {
    pub total_size: u32,
    /// Always zero; to be ignored.
    pub _reserved: u32,
}

/// The multiboot2 header.
#[derive(Debug)]
pub struct Header {
    /// Should be `0xE85250D6`.
    pub magic: u32,
    pub architecture: u32,
    pub header_length: u32,
    pub checksum: u32,
}

} // verus!
