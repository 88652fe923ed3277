use oes::multiboot::{BootloaderName, Info, Tag, TagType};
use oes::x86::boot;

#[test]
fn tag_type_numbers_roundtrip() {
    for v in 0u32..22 {
        let t = TagType::try_from(v).unwrap();
        assert_eq!(t.code(), v);
        assert!(t.eq_u32(&v));
        assert!(!t.eq_u32(&(v + 1)));
    }
    assert_eq!(TagType::try_from(0u32).unwrap(), TagType::End);
    assert_eq!(TagType::try_from(2u32).unwrap(), TagType::BootLoaderName);
    assert_eq!(TagType::try_from(21u32).unwrap(), TagType::LoadBaseAddr);
}

#[test]
fn tag_type_rejects_unknown_numbers() {
    let e = TagType::try_from(22u32).unwrap_err();
    assert_eq!(e.0, 22);
    assert_eq!(e.message(), "Invalid Tag type of 22");
    assert_eq!(TagType::try_from(4294967295u32).unwrap_err().message(), "Invalid Tag type of 4294967295");
}

#[test]
fn terminator_tag() {
    assert_eq!(Tag::terminator(), Tag { type_: 0, size: 8 });
    assert_eq!(Tag::default(), Tag::terminator());
    assert_eq!(Tag::new(TagType::Mmap, 40), Tag { type_: 6, size: 40 });
    assert_eq!(boot::Tag::terminator(), boot::Tag { type_: 0, flags: 0, size: 8 });
    assert_eq!(boot::Tag::default(), boot::Tag::terminator());
}

#[test]
fn info_tags_follow_the_fixed_part() {
    let tags = vec![Tag::new(TagType::Cmdline, 8), Tag::terminator()];
    let mut info = Info::from_parts(24, tags);
    let slots = info.get_tags_mut();
    assert_eq!(slots.len(), 2);
    slots[0] = Tag::new(TagType::Apm, 16);
    assert_eq!(info.tags[0], Tag { type_: 10, size: 16 });
    assert_eq!(info.total_size, 24);

    let mut small = Info::new(8);
    assert_eq!(small._reserved, 0);
    assert_eq!(small.get_tags_mut().len(), 0);
}

#[test]
fn bootloader_name_reads_to_the_terminator() {
    let name = BootloaderName { type_: 2, size: 13, string: b"GRUB 2\0junk".to_vec() };
    assert_eq!(name.as_str(), "GRUB 2");
    let empty = BootloaderName { type_: 2, size: 9, string: vec![0] };
    assert_eq!(empty.as_str(), "");
}
