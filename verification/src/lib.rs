//! Typed, read-only views of an ELF section-header table handed over by a
//! bootloader: section records, their attribute flags, and a forward cursor
//! over the table that hides unused entries.
//!
//! Nothing is copied out of the table but the header that is asked for, and
//! nothing is allocated. Every read is within the span of bytes that the
//! caller hands in: a table that does not fit its span is refused when the
//! view of it is made.

pub mod elf_section;
pub mod elf_section_flags;
pub mod elf_section_iter;
pub mod elf_section_kind;
pub mod elf_sections_tag;
pub mod error;
pub mod layout;

pub use elf_section::ElfSection;
pub use elf_section::ElfSectionView;
pub use elf_section_flags::ElfSectionFlags;
pub use elf_section_flags::ELF_SECTION_ALL;
pub use elf_section_flags::ELF_SECTION_ALLOCATED;
pub use elf_section_flags::ELF_SECTION_EXECUTABLE;
pub use elf_section_flags::ELF_SECTION_WRITABLE;
pub use elf_section_iter::ElfSectionIter;
pub use elf_section_kind::ElfSectionKind;
pub use elf_sections_tag::ElfSectionsTag;
pub use elf_sections_tag::ElfSectionsTagView;
pub use error::ElfSectionsError;
