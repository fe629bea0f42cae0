use elf_sections::ElfSectionFlags;
use elf_sections::ElfSectionKind;
use elf_sections::ELF_SECTION_ALL;
use elf_sections::ELF_SECTION_ALLOCATED;
use elf_sections::ELF_SECTION_EXECUTABLE;
use elf_sections::ELF_SECTION_WRITABLE;

#[test]
fn named_masks_are_the_three_low_bits() {
    assert_eq!(ELF_SECTION_WRITABLE, 0x1);
    assert_eq!(ELF_SECTION_ALLOCATED, 0x2);
    assert_eq!(ELF_SECTION_EXECUTABLE, 0x4);
    assert_eq!(ELF_SECTION_ALL, 0x7);
    assert_eq!(ElfSectionFlags::writable().bits(), 0x1);
    assert_eq!(ElfSectionFlags::allocated().bits(), 0x2);
    assert_eq!(ElfSectionFlags::executable().bits(), 0x4);
    assert_eq!(ElfSectionFlags::all().bits(), 0x7);
    assert_eq!(ElfSectionFlags::empty().bits(), 0x0);
}

#[test]
fn decode_five_is_writable_and_executable() {
    let flags: ElfSectionFlags = ElfSectionFlags::from_bits_truncate(0x5);
    assert_eq!(flags.contains(ElfSectionFlags::writable()), true);
    assert_eq!(flags.contains(ElfSectionFlags::allocated()), false);
    assert_eq!(flags.contains(ElfSectionFlags::executable()), true);
    assert_eq!(flags.bits(), 0x5);
}

#[test]
fn each_named_bit_decides_its_own_query() {
    let mut raw: usize = 0;
    while raw < 64 {
        let flags: ElfSectionFlags = ElfSectionFlags::from_bits_truncate(raw);
        assert_eq!(flags.contains(ElfSectionFlags::writable()), (raw & 0x1) != 0);
        assert_eq!(flags.contains(ElfSectionFlags::allocated()), (raw & 0x2) != 0);
        assert_eq!(flags.contains(ElfSectionFlags::executable()), (raw & 0x4) != 0);
        assert_eq!(flags.bits(), raw & 0x7);
        raw += 1;
    }
}

#[test]
fn unknown_high_bits_do_not_reach_the_set() {
    let plain: ElfSectionFlags = ElfSectionFlags::from_bits_truncate(0x2);
    let noisy: ElfSectionFlags = ElfSectionFlags::from_bits_truncate(0xF0F0_FFF8 | 0x2);
    assert_eq!(plain, noisy);
    assert_eq!(noisy.bits(), 0x2);
    assert!(noisy.contains(ElfSectionFlags::allocated()));
    assert!(!noisy.contains(ElfSectionFlags::writable()));
    assert!(!noisy.contains(ElfSectionFlags::executable()));
    let only_noise: ElfSectionFlags = ElfSectionFlags::from_bits_truncate(usize::MAX & !0x7);
    assert!(only_noise.is_empty());
    assert_eq!(only_noise, ElfSectionFlags::empty());
}

#[test]
fn from_bits_refuses_unknown_bits() {
    let mut raw: usize = 0;
    while raw < 8 {
        let flags: Option<ElfSectionFlags> = ElfSectionFlags::from_bits(raw);
        assert_eq!(flags.map(|f| f.bits()), Some(raw));
        raw += 1;
    }
    assert_eq!(ElfSectionFlags::from_bits(0x8), None);
    assert_eq!(ElfSectionFlags::from_bits(0x0F00_0000), None);
    assert_eq!(ElfSectionFlags::from_bits(0xF000_0001), None);
}

#[test]
fn contains_asks_for_every_member_of_the_other_set() {
    let all: ElfSectionFlags = ElfSectionFlags::all();
    let both: ElfSectionFlags = ElfSectionFlags::from_bits_truncate(0x3);
    assert!(all.contains(both));
    assert!(both.contains(ElfSectionFlags::writable()));
    assert!(both.contains(ElfSectionFlags::allocated()));
    assert!(!both.contains(ElfSectionFlags::executable()));
    assert!(!both.contains(all));
    assert!(!ElfSectionFlags::writable().contains(both));
    assert!(both.contains(ElfSectionFlags::empty()));
    assert!(ElfSectionFlags::empty().contains(ElfSectionFlags::empty()));
}

#[test]
fn is_empty_only_of_the_empty_set() {
    assert!(ElfSectionFlags::empty().is_empty());
    assert!(ElfSectionFlags::from_bits_truncate(0).is_empty());
    assert!(!ElfSectionFlags::writable().is_empty());
    assert!(!ElfSectionFlags::all().is_empty());
}

#[test]
fn kind_codes_are_zero_to_eleven() {
    assert_eq!(ElfSectionKind::Unused.code(), 0);
    assert_eq!(ElfSectionKind::ProgramSection.code(), 1);
    assert_eq!(ElfSectionKind::LinkerSymbolTable.code(), 2);
    assert_eq!(ElfSectionKind::StringTable.code(), 3);
    assert_eq!(ElfSectionKind::RelaRelocation.code(), 4);
    assert_eq!(ElfSectionKind::SymbolHashTable.code(), 5);
    assert_eq!(ElfSectionKind::DynamicLinkingTable.code(), 6);
    assert_eq!(ElfSectionKind::Note.code(), 7);
    assert_eq!(ElfSectionKind::Uninitialized.code(), 8);
    assert_eq!(ElfSectionKind::RelRelocation.code(), 9);
    assert_eq!(ElfSectionKind::Reserved.code(), 10);
    assert_eq!(ElfSectionKind::DynamicLoaderSymbolTable.code(), 11);
}

#[test]
fn kind_from_code_names_the_known_codes_only() {
    let mut code: u32 = 0;
    while code <= 11 {
        let kind: Option<ElfSectionKind> = ElfSectionKind::from_code(code);
        assert_eq!(kind.map(|k| k.code()), Some(code));
        code += 1;
    }
    assert_eq!(ElfSectionKind::from_code(0), Some(ElfSectionKind::Unused));
    assert_eq!(ElfSectionKind::from_code(3), Some(ElfSectionKind::StringTable));
    assert_eq!(ElfSectionKind::from_code(12), None);
    assert_eq!(ElfSectionKind::from_code(0x6000_0000), None);
    assert_eq!(ElfSectionKind::from_code(0x7FFF_FFFF), None);
    assert_eq!(ElfSectionKind::from_code(u32::MAX), None);
}
