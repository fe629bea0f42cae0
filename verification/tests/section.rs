use elf_sections::layout::record_size;
use elf_sections::layout::word_size;
use elf_sections::ElfSection;
use elf_sections::ElfSectionFlags;

fn encode_section(
    name: u32,
    kind: u32,
    flags: usize,
    address: usize,
    offset: usize,
    size: usize,
    link: u32,
    info: u32,
    address_align: usize,
    entry_size: usize,
) -> Vec<u8> {
    let mut out: Vec<u8> = Vec::new();
    out.extend_from_slice(&name.to_le_bytes());
    out.extend_from_slice(&kind.to_le_bytes());
    out.extend_from_slice(&flags.to_le_bytes());
    out.extend_from_slice(&address.to_le_bytes());
    out.extend_from_slice(&offset.to_le_bytes());
    out.extend_from_slice(&size.to_le_bytes());
    out.extend_from_slice(&link.to_le_bytes());
    out.extend_from_slice(&info.to_le_bytes());
    out.extend_from_slice(&address_align.to_le_bytes());
    out.extend_from_slice(&entry_size.to_le_bytes());
    out
}

#[test]
fn sizes_follow_the_machine_word() {
    assert_eq!(word_size(), std::mem::size_of::<usize>());
    assert_eq!(record_size(), 16 + 6 * std::mem::size_of::<usize>());
    assert!(record_size() == 40 || record_size() == 64);
}

#[test]
fn new_keeps_every_field() {
    let section: ElfSection = ElfSection::new(11, 1, 0x6, 0x4000, 0x200, 0x80, 3, 4, 16, 24);
    assert_eq!(section.name(), 11);
    assert_eq!(section.kind(), 1);
    assert_eq!(section.flags().bits(), 0x6);
    assert_eq!(section.address(), 0x4000);
    assert_eq!(section.offset(), 0x200);
    assert_eq!(section.size(), 0x80);
    assert_eq!(section.link(), 3);
    assert_eq!(section.info(), 4);
    assert_eq!(section.address_align(), 16);
    assert_eq!(section.entry_size(), 24);
}

#[test]
fn accessors_give_the_same_value_each_time() {
    let section: ElfSection = ElfSection::new(7, 3, 0x3, 0x1000, 0x40, 0x20, 1, 2, 8, 0);
    assert_eq!(section.name(), section.name());
    assert_eq!(section.kind(), section.kind());
    assert_eq!(section.flags(), section.flags());
    assert_eq!(section.address(), section.address());
    assert_eq!(section.offset(), section.offset());
    assert_eq!(section.size(), section.size());
    assert_eq!(section.link(), section.link());
    assert_eq!(section.info(), section.info());
    assert_eq!(section.address_align(), section.address_align());
    assert_eq!(section.entry_size(), section.entry_size());
    assert_eq!(section.start_address(), section.start_address());
    assert_eq!(section.end_address(), section.end_address());
    assert_eq!(section.is_allocated(), section.is_allocated());
    assert_eq!(section, ElfSection::new(7, 3, 0x3, 0x1000, 0x40, 0x20, 1, 2, 8, 0));
}

#[test]
fn address_range_is_address_and_address_plus_size() {
    let section: ElfSection = ElfSection::new(0, 1, 0x3, 0x1000, 0, 0x20, 0, 0, 0, 0);
    assert_eq!(section.start_address(), 0x1000);
    assert_eq!(section.end_address(), 0x1020);
    let empty: ElfSection = ElfSection::new(0, 8, 0, 0x2000, 0, 0, 0, 0, 0, 0);
    assert_eq!(empty.start_address(), 0x2000);
    assert_eq!(empty.end_address(), 0x2000);
    let not_loaded: ElfSection = ElfSection::new(0, 3, 0, 0, 0x300, 0x55, 0, 0, 1, 0);
    assert_eq!(not_loaded.start_address(), 0);
    assert_eq!(not_loaded.end_address(), 0x55);
}

#[test]
fn end_address_wraps_round() {
    let top: ElfSection = ElfSection::new(0, 1, 0, usize::MAX, 0, 2, 0, 0, 0, 0);
    assert_eq!(top.end_address(), 1);
    let exact: ElfSection = ElfSection::new(0, 1, 0, usize::MAX, 0, 1, 0, 0, 0, 0);
    assert_eq!(exact.end_address(), 0);
    let last: ElfSection = ElfSection::new(0, 1, 0, usize::MAX - 4, 0, 4, 0, 0, 0, 0);
    assert_eq!(last.end_address(), usize::MAX);
    let both: ElfSection = ElfSection::new(0, 1, 0, usize::MAX, 0, usize::MAX, 0, 0, 0, 0);
    assert_eq!(both.end_address(), usize::MAX - 1);
}

#[test]
fn is_allocated_reads_bit_one() {
    assert!(ElfSection::new(0, 1, 0x2, 0, 0, 0, 0, 0, 0, 0).is_allocated());
    assert!(ElfSection::new(0, 1, 0x3, 0, 0, 0, 0, 0, 0, 0).is_allocated());
    assert!(ElfSection::new(0, 1, 0x7, 0, 0, 0, 0, 0, 0, 0).is_allocated());
    assert!(ElfSection::new(0, 1, 0xF000_0002, 0, 0, 0, 0, 0, 0, 0).is_allocated());
    assert!(!ElfSection::new(0, 1, 0x0, 0, 0, 0, 0, 0, 0, 0).is_allocated());
    assert!(!ElfSection::new(0, 1, 0x5, 0, 0, 0, 0, 0, 0, 0).is_allocated());
    assert!(!ElfSection::new(0, 1, 0xFFFF_FFF8, 0, 0, 0, 0, 0, 0, 0).is_allocated());
}

#[test]
fn flags_drop_the_unknown_bits() {
    let section: ElfSection = ElfSection::new(0, 1, 0x0F00_0005, 0, 0, 0, 0, 0, 0, 0);
    let flags: ElfSectionFlags = section.flags();
    assert_eq!(flags.bits(), 0x5);
    assert!(flags.contains(ElfSectionFlags::writable()));
    assert!(!flags.contains(ElfSectionFlags::allocated()));
    assert!(flags.contains(ElfSectionFlags::executable()));
}

#[test]
fn is_unused_only_for_code_zero() {
    assert!(ElfSection::new(5, 0, 0x7, 1, 2, 3, 4, 5, 6, 7).is_unused());
    assert!(!ElfSection::new(0, 1, 0, 0, 0, 0, 0, 0, 0, 0).is_unused());
    assert!(!ElfSection::new(0, 0x7000_0000, 0, 0, 0, 0, 0, 0, 0, 0).is_unused());
}

#[test]
fn decode_reads_the_fields_least_significant_byte_first() {
    let mut data: Vec<u8> = Vec::new();
    data.extend_from_slice(&[0x78, 0x56, 0x34, 0x12]);
    data.extend_from_slice(&[0x03, 0x00, 0x00, 0x00]);
    let word: usize = word_size();
    let mut field: usize = 0;
    while field < 4 {
        let mut i: usize = 0;
        while i < word {
            data.push((0x10 * (field + 1) + i) as u8);
            i += 1;
        }
        field += 1;
    }
    data.extend_from_slice(&[0xEF, 0xBE, 0xAD, 0xDE]);
    data.extend_from_slice(&[0x01, 0x02, 0x03, 0x04]);
    let mut tail: usize = 4;
    while tail < 6 {
        let mut i: usize = 0;
        while i < word {
            data.push((0x10 * (tail + 1) + i) as u8);
            i += 1;
        }
        tail += 1;
    }
    assert_eq!(data.len(), record_size());
    let section: ElfSection = ElfSection::decode(&data, 0).unwrap();
    assert_eq!(section.name(), 0x1234_5678);
    assert_eq!(section.kind(), 3);
    assert_eq!(section.link(), 0xDEAD_BEEF);
    assert_eq!(section.info(), 0x0403_0201);
    if word == 8 {
        assert_eq!(section.address() as u64, 0x2726_2524_2322_2120);
        assert_eq!(section.offset() as u64, 0x3736_3534_3332_3130);
        assert_eq!(section.size() as u64, 0x4746_4544_4342_4140);
        assert_eq!(section.address_align() as u64, 0x5756_5554_5352_5150);
        assert_eq!(section.entry_size() as u64, 0x6766_6564_6362_6160);
        assert_eq!(section.flags().bits(), 0x1716_1514_1312_1110 & 0x7);
    } else {
        assert_eq!(section.address(), 0x2322_2120);
        assert_eq!(section.offset(), 0x3332_3130);
        assert_eq!(section.size(), 0x4342_4140);
        assert_eq!(section.address_align(), 0x5352_5150);
        assert_eq!(section.entry_size(), 0x6362_6160);
        assert_eq!(section.flags().bits(), 0x1312_1110 & 0x7);
    }
}

#[test]
fn decode_gives_back_what_was_encoded() {
    let data: Vec<u8> = encode_section(
        0xAABB_CCDD,
        9,
        0x6,
        usize::MAX - 1,
        0x0123_4567,
        0x89AB_CDEF,
        0xFFFF_FFFF,
        0x8000_0001,
        4096,
        usize::MAX,
    );
    let section: ElfSection = ElfSection::decode(&data, 0).unwrap();
    assert_eq!(
        section,
        ElfSection::new(
            0xAABB_CCDD,
            9,
            0x6,
            usize::MAX - 1,
            0x0123_4567,
            0x89AB_CDEF,
            0xFFFF_FFFF,
            0x8000_0001,
            4096,
            usize::MAX,
        )
    );
    assert_eq!(section.end_address(), 0x89AB_CDEF - 2);
}

#[test]
fn decode_at_an_offset_skips_what_stands_before() {
    let mut data: Vec<u8> = vec![0xFF, 0xFF, 0xFF];
    data.extend_from_slice(&encode_section(1, 2, 3, 4, 5, 6, 7, 8, 9, 10));
    data.push(0xEE);
    let section: ElfSection = ElfSection::decode(&data, 3).unwrap();
    assert_eq!(section, ElfSection::new(1, 2, 3, 4, 5, 6, 7, 8, 9, 10));
    assert_eq!(ElfSection::decode(&data, 4).map(|s| s.name()), Some(0x0200_0000));
}

#[test]
fn decode_refuses_a_header_that_runs_past_the_end() {
    let data: Vec<u8> = encode_section(1, 2, 3, 4, 5, 6, 7, 8, 9, 10);
    assert!(ElfSection::decode(&data, 0).is_some());
    assert_eq!(ElfSection::decode(&data, 1), None);
    assert_eq!(ElfSection::decode(&data[..data.len() - 1], 0), None);
    assert_eq!(ElfSection::decode(&[], 0), None);
    assert_eq!(ElfSection::decode(&data, usize::MAX), None);
    assert_eq!(ElfSection::decode(&data, data.len()), None);
}
