//! The multiboot2 boot information: the tags a bootloader hands the kernel.
use vstd::prelude::*;
use crate::decimal::{decimal, push_decimal};
use vstd::string::StringSliceAdditionalSpecFns;
use crate::ascii::utf8_str;

verus! {

/// The error of a tag type number that the specification does not list.
#[derive(Debug)]
pub struct InvalidTagType(pub u32);

impl InvalidTagType {
    /// The text this error displays as.
    pub fn message(&self) -> (r: String)
        ensures
            r@ == "Invalid Tag type of "@ + decimal(self.0 as nat),
    {
        let mut m = String::from_str("Invalid Tag type of ");
        push_decimal(&mut m, self.0 as u64);
        m
    }
}

/// A tag of the boot information: its type number and its size in bytes.
///
/// The type is kept as a number, as a bootloader that does not follow the
/// specification can pass any.
#[derive(Debug, PartialEq, Eq, Structural)]
pub struct Tag {
    /// The type number.
    pub type_: u32,
    /// The size in bytes.
    pub size: u32,
}

/// The types of tag the multiboot2 specification lists.
#[derive(Debug, PartialEq, Eq, Clone, Copy, Structural)]
#[non_exhaustive]
pub enum TagType {
    /// Tag type 0 of the specification.
    End,
    /// Tag type 1 of the specification.
    Cmdline,
    /// Tag type 2 of the specification.
    BootLoaderName,
    /// Tag type 3 of the specification.
    Module,
    /// Tag type 4 of the specification.
    BasicMeminfo,
    /// Tag type 5 of the specification.
    Bootdev,
    /// Tag type 6 of the specification.
    Mmap,
    /// Tag type 7 of the specification.
    Vbe,
    /// Tag type 8 of the specification.
    Framebuffer,
    /// Tag type 9 of the specification.
    ElfSections,
    /// Tag type 10 of the specification.
    Apm,
    /// Tag type 11 of the specification.
    Efi32,
    /// Tag type 12 of the specification.
    Efi64,
    /// Tag type 13 of the specification.
    Smbios,
    /// Tag type 14 of the specification.
    AcpiV1,
    /// Tag type 15 of the specification.
    AcpiV2,
    /// Tag type 16 of the specification.
    Network,
    /// Tag type 17 of the specification.
    EfiMmap,
    /// Tag type 18 of the specification.
    EfiBs,
    /// Tag type 19 of the specification.
    Efi32Ih,
    /// Tag type 20 of the specification.
    Efi64Ih,
    /// Tag type 21 of the specification.
    LoadBaseAddr,
}

/// The number of a tag type.
pub open spec fn tag_type_code(t: TagType) -> u32 {
    match t {
        TagType::End => 0,
        TagType::Cmdline => 1,
        TagType::BootLoaderName => 2,
        TagType::Module => 3,
        TagType::BasicMeminfo => 4,
        TagType::Bootdev => 5,
        TagType::Mmap => 6,
        TagType::Vbe => 7,
        TagType::Framebuffer => 8,
        TagType::ElfSections => 9,
        TagType::Apm => 10,
        TagType::Efi32 => 11,
        TagType::Efi64 => 12,
        TagType::Smbios => 13,
        TagType::AcpiV1 => 14,
        TagType::AcpiV2 => 15,
        TagType::Network => 16,
        TagType::EfiMmap => 17,
        TagType::EfiBs => 18,
        TagType::Efi32Ih => 19,
        TagType::Efi64Ih => 20,
        TagType::LoadBaseAddr => 21,
    }
}

/// The tag type whose number is `v`, if there is one.
pub open spec fn tag_type_of_code(v: u32) -> Option<TagType> {
    if v == 0 { Some(TagType::End) }
    else if v == 1 { Some(TagType::Cmdline) }
    else if v == 2 { Some(TagType::BootLoaderName) }
    else if v == 3 { Some(TagType::Module) }
    else if v == 4 { Some(TagType::BasicMeminfo) }
    else if v == 5 { Some(TagType::Bootdev) }
    else if v == 6 { Some(TagType::Mmap) }
    else if v == 7 { Some(TagType::Vbe) }
    else if v == 8 { Some(TagType::Framebuffer) }
    else if v == 9 { Some(TagType::ElfSections) }
    else if v == 10 { Some(TagType::Apm) }
    else if v == 11 { Some(TagType::Efi32) }
    else if v == 12 { Some(TagType::Efi64) }
    else if v == 13 { Some(TagType::Smbios) }
    else if v == 14 { Some(TagType::AcpiV1) }
    else if v == 15 { Some(TagType::AcpiV2) }
    else if v == 16 { Some(TagType::Network) }
    else if v == 17 { Some(TagType::EfiMmap) }
    else if v == 18 { Some(TagType::EfiBs) }
    else if v == 19 { Some(TagType::Efi32Ih) }
    else if v == 20 { Some(TagType::Efi64Ih) }
    else if v == 21 { Some(TagType::LoadBaseAddr) }
    else { None }
}

impl TagType {
    /// The number of this tag type.
    pub fn code(self) -> (r: u32)
        ensures
            r == tag_type_code(self),
    {
        match self {
            TagType::End => 0,
            TagType::Cmdline => 1,
            TagType::BootLoaderName => 2,
            TagType::Module => 3,
            TagType::BasicMeminfo => 4,
            TagType::Bootdev => 5,
            TagType::Mmap => 6,
            TagType::Vbe => 7,
            TagType::Framebuffer => 8,
            TagType::ElfSections => 9,
            TagType::Apm => 10,
            TagType::Efi32 => 11,
            TagType::Efi64 => 12,
            TagType::Smbios => 13,
            TagType::AcpiV1 => 14,
            TagType::AcpiV2 => 15,
            TagType::Network => 16,
            TagType::EfiMmap => 17,
            TagType::EfiBs => 18,
            TagType::Efi32Ih => 19,
            TagType::Efi64Ih => 20,
            TagType::LoadBaseAddr => 21,
        }
    }

    /// Compares this type with a tag type number.
    pub fn eq_u32(&self, other: &u32) -> (r: bool)
        ensures
            r == (tag_type_code(*self) == *other),
    {
        self.code() == *other
    }
}

/// What converting the number `v` into a [`TagType`] gives.
pub open spec fn tag_type_try_from(v: u32) -> Result<TagType, InvalidTagType> {
    match tag_type_of_code(v) {
        Some(t) => Ok(t),
        None => Err(InvalidTagType(v)),
    }
}

impl TryFrom<u32> for TagType {
    type Error = InvalidTagType;

    fn try_from(value: u32) -> (r: Result<TagType, InvalidTagType>) {
        match value {
            0 => Ok(TagType::End),
            1 => Ok(TagType::Cmdline),
            2 => Ok(TagType::BootLoaderName),
            3 => Ok(TagType::Module),
            4 => Ok(TagType::BasicMeminfo),
            5 => Ok(TagType::Bootdev),
            6 => Ok(TagType::Mmap),
            7 => Ok(TagType::Vbe),
            8 => Ok(TagType::Framebuffer),
            9 => Ok(TagType::ElfSections),
            10 => Ok(TagType::Apm),
            11 => Ok(TagType::Efi32),
            12 => Ok(TagType::Efi64),
            13 => Ok(TagType::Smbios),
            14 => Ok(TagType::AcpiV1),
            15 => Ok(TagType::AcpiV2),
            16 => Ok(TagType::Network),
            17 => Ok(TagType::EfiMmap),
            18 => Ok(TagType::EfiBs),
            19 => Ok(TagType::Efi32Ih),
            20 => Ok(TagType::Efi64Ih),
            21 => Ok(TagType::LoadBaseAddr),
            value => Err(InvalidTagType(value)),
        }
    }
}

impl vstd::std_specs::convert::TryFromSpecImpl<u32> for TagType {
    open spec fn obeys_try_from_spec() -> bool {
        true
    }

    open spec fn try_from_spec(v: u32) -> Result<TagType, InvalidTagType> {
        tag_type_try_from(v)
    }
}

/// Every tag type number names the type it came from, the numbers run from
/// 0 to 21, and every other number names none.
pub proof fn lemma_tag_type_roundtrip(t: TagType, v: u32)
    ensures
        tag_type_code(t) < 22,
        tag_type_of_code(tag_type_code(t)) == Some(t),
        tag_type_of_code(v) is Some <==> v < 22,
        tag_type_of_code(v) matches Some(u) ==> tag_type_code(u) == v,
{
}

/// The numbers are those of the multiboot2 specification, in the order it
/// lists the tag types: end 0, command line 1, boot loader name 2, modules 3,
/// basic memory information 4, BIOS boot device 5, memory map 6, VBE
/// information 7, framebuffer information 8, ELF symbols 9, APM table 10,
/// EFI 32-bit system table 11, EFI 64-bit system table 12, SMBIOS tables 13,
/// old ACPI RSDP 14, new ACPI RSDP 15, networking information 16, EFI memory
/// map 17, EFI boot services not terminated 18, EFI 32-bit image handle 19,
/// EFI 64-bit image handle 20 and image load base address 21; each number
/// reads back as its type.
pub proof fn lemma_tag_type_numbers()
    ensures
        tag_type_code(TagType::End) == 0,
        tag_type_code(TagType::Cmdline) == 1,
        tag_type_code(TagType::BootLoaderName) == 2,
        tag_type_code(TagType::Module) == 3,
        tag_type_code(TagType::BasicMeminfo) == 4,
        tag_type_code(TagType::Bootdev) == 5,
        tag_type_code(TagType::Mmap) == 6,
        tag_type_code(TagType::Vbe) == 7,
        tag_type_code(TagType::Framebuffer) == 8,
        tag_type_code(TagType::ElfSections) == 9,
        tag_type_code(TagType::Apm) == 10,
        tag_type_code(TagType::Efi32) == 11,
        tag_type_code(TagType::Efi64) == 12,
        tag_type_code(TagType::Smbios) == 13,
        tag_type_code(TagType::AcpiV1) == 14,
        tag_type_code(TagType::AcpiV2) == 15,
        tag_type_code(TagType::Network) == 16,
        tag_type_code(TagType::EfiMmap) == 17,
        tag_type_code(TagType::EfiBs) == 18,
        tag_type_code(TagType::Efi32Ih) == 19,
        tag_type_code(TagType::Efi64Ih) == 20,
        tag_type_code(TagType::LoadBaseAddr) == 21,
        tag_type_of_code(0) == Some(TagType::End),
        tag_type_of_code(1) == Some(TagType::Cmdline),
        tag_type_of_code(2) == Some(TagType::BootLoaderName),
        tag_type_of_code(3) == Some(TagType::Module),
        tag_type_of_code(4) == Some(TagType::BasicMeminfo),
        tag_type_of_code(5) == Some(TagType::Bootdev),
        tag_type_of_code(6) == Some(TagType::Mmap),
        tag_type_of_code(7) == Some(TagType::Vbe),
        tag_type_of_code(8) == Some(TagType::Framebuffer),
        tag_type_of_code(9) == Some(TagType::ElfSections),
        tag_type_of_code(10) == Some(TagType::Apm),
        tag_type_of_code(11) == Some(TagType::Efi32),
        tag_type_of_code(12) == Some(TagType::Efi64),
        tag_type_of_code(13) == Some(TagType::Smbios),
        tag_type_of_code(14) == Some(TagType::AcpiV1),
        tag_type_of_code(15) == Some(TagType::AcpiV2),
        tag_type_of_code(16) == Some(TagType::Network),
        tag_type_of_code(17) == Some(TagType::EfiMmap),
        tag_type_of_code(18) == Some(TagType::EfiBs),
        tag_type_of_code(19) == Some(TagType::Efi32Ih),
        tag_type_of_code(20) == Some(TagType::Efi64Ih),
        tag_type_of_code(21) == Some(TagType::LoadBaseAddr),
{
}

impl Tag {
    /// A tag of the given type and size.
    pub fn new(type_: TagType, size: u32) -> (r: Tag)
        ensures
            r == (Tag { type_: tag_type_code(type_), size }),
    {
        Tag { type_: type_.code(), size }
    }

    /// The tag that ends the list: type 0, 8 bytes.
    pub fn terminator() -> (r: Tag)
        ensures
            r == (Tag { type_: 0, size: 8 }),
    {
        Tag { type_: 0, size: 8 }
    }
}

impl Default for Tag {
    /// The terminating tag; see [`Tag::terminator`].
    fn default() -> (r: Tag)
        ensures
            r == (Tag { type_: 0, size: 8 }),
    {
        Tag::terminator()
    }
}

/// A C-style flexible array member: the elements that follow a structure in
/// memory. It occupies no space itself.
#[derive(Debug)]
pub struct IncompleteArrayField<T> {
    _marker: core::marker::PhantomData<T>,
}

impl<T> IncompleteArrayField<T> {
    /// The marker for elements that follow.
    pub fn new() -> (r: Self) {
        IncompleteArrayField { _marker: core::marker::PhantomData }
    }
}

/// The size in bytes of the fixed part of the boot information, which is
/// also the size of one tag slot.
pub const INFO_HEADER_SIZE: u32 = 8;

/// The boot information: its total size in bytes, and the tag slots that
/// follow its fixed part in memory.
#[derive(Debug)]
pub struct Info {
    /// The total size, in bytes.
    pub total_size: u32,
    /// Always zero; to be ignored.
    pub _reserved: u32,
    /// The 8-byte tag slots that follow the fixed part.
    pub tags: Vec<Tag>,
}

/// How many tag slots follow the fixed part of boot information of
/// `total_size` bytes.
pub open spec fn tag_slot_count(total_size: u32) -> int {
    total_size as int / INFO_HEADER_SIZE as int - 1
}

impl Info {
    /// Boot information of the given size, with no tag memory after it.
    pub fn new(total_size: u32) -> (r: Info)
        ensures
            r.total_size == total_size,
            r._reserved == 0,
            r.tags@.len() == 0,
    {
        Info { total_size, _reserved: 0, tags: Vec::new() }
    }

    /// Boot information of the given size over the tag slots that follow it.
    pub fn from_parts(total_size: u32, tags: Vec<Tag>) -> (r: Info)
        ensures
            r.total_size == total_size,
            r._reserved == 0,
            r.tags@ == tags@,
    {
        Info { total_size, _reserved: 0, tags }
    }

    /// The tags: every 8-byte slot after the fixed part, up to the total
    /// size.
    ///
    /// The total size must cover at least the fixed part, and the slots it
    /// describes must be those that follow.
    pub fn get_tags_mut(&mut self) -> (r: &mut [Tag])
        requires
            old(self).total_size >= INFO_HEADER_SIZE,
            old(self).tags@.len() == tag_slot_count(old(self).total_size),
        ensures
            r@ == old(self).tags@,
            r@.len() == tag_slot_count(old(self).total_size),
            final(self).tags@ == final(r)@,
            final(self).total_size == old(self).total_size,
            final(self)._reserved == old(self)._reserved,
    {
        let len = self.total_size / INFO_HEADER_SIZE;
        assert(len >= 1);
        self.tags.as_mut_slice()
    }
}

/// The multiboot2 header a kernel image carries.
#[derive(Debug)]
pub struct Header {
    /// Should be `0xE85250D6`.
    pub magic: u32,
    /// The processor architecture.
    pub architecture: u32,
    /// The length of the header in bytes.
    pub header_length: u32,
    /// Added to the three fields above, gives zero.
    pub checksum: u32,
    /// The tags that follow.
    pub tags: IncompleteArrayField<Tag>,
}

impl Header {
    /// The magic value.
    pub fn magic(&self) -> (r: u32)
        ensures
            r == self.magic,
    {
        self.magic
    }
}

/// The bootloader-name tag: type 2, its size, and the bytes of a
/// zero-terminated UTF-8 string.
pub struct BootloaderName {
    /// Always `2`.
    pub type_: u32,
    /// The size in bytes.
    pub size: u32,
    /// The bytes that follow, the string and its terminating zero among them.
    pub string: Vec<u8>,
}

/// Whether `s` holds a zero byte.
pub open spec fn has_nul(s: Seq<u8>) -> bool {
    exists|i: int| 0 <= i < s.len() && s[i] == 0
}

/// The bytes of `s` before its first zero byte.
pub open spec fn until_nul(s: Seq<u8>) -> Seq<u8>
    decreases s.len(),
{
    if s.len() == 0 {
        s
    } else if s[0] == 0 {
        Seq::empty()
    } else {
        seq![s[0]] + until_nul(s.drop_first())
    }
}

/// The index of the first zero byte of `s`.
fn nul_position(s: &Vec<u8>) -> (r: usize)
    requires
        has_nul(s@),
    ensures
        r < s@.len(),
        s@[r as int] == 0,
        until_nul(s@) == s@.subrange(0, r as int),
{
    let mut i: usize = 0;
    while i < s.len()
        invariant
            i <= s@.len(),
            has_nul(s@),
            forall|j: int| 0 <= j < i ==> s@[j] != 0,
        decreases s@.len() - i,
    {
        if s[i] == 0 {
            proof { lemma_until_nul(s@, i as int); }
            return i;
        }
        i = i + 1;
    }
    assert(false);
    0
}

/// The bytes before the first zero, when it stands at `k`.
proof fn lemma_until_nul(s: Seq<u8>, k: int)
    requires
        0 <= k < s.len(),
        s[k] == 0,
        forall|j: int| 0 <= j < k ==> s[j] != 0,
    ensures
        until_nul(s) == s.subrange(0, k),
    decreases k,
{
    if k == 0 {
        assert(s.subrange(0, 0) =~= Seq::<u8>::empty());
    } else {
        lemma_until_nul(s.drop_first(), k - 1);
        assert(seq![s[0]] + s.drop_first().subrange(0, k - 1) =~= s.subrange(0, k));
    }
}

impl BootloaderName {
    /// The name of the bootloader: the string up to its terminating zero.
    ///
    /// The bytes must hold that zero, and the string must be UTF-8.
    pub fn as_str(&self) -> (r: &str)
        requires
            has_nul(self.string@),
            vstd::utf8::valid_utf8(until_nul(self.string@)),
        ensures
            r.spec_bytes() == until_nul(self.string@),
    {
        let n = nul_position(&self.string);
        let bytes = self.string.as_slice();
        let name = &bytes[0..n];
        match utf8_str(name) {
            Some(text) => text,
            None => {
                assert(false);
                ""
            },
        }
    }
}

/// The command-line tag: its type, its size, and the bytes of a
/// zero-terminated UTF-8 string.
pub struct BootCmdLine {
    /// The type number.
    pub type_: u32,
    /// The size in bytes.
    pub size: u32,
    /// The bytes that follow, the string and its terminating zero among them.
    pub string: Vec<u8>,
}

} // verus!
