//! One header of the section table.

use crate::elf_section_flags::lemma_truncated_membership;
use crate::elf_section_flags::mask_contains;
use crate::elf_section_flags::ElfSectionFlags;
use crate::elf_section_flags::ELF_SECTION_ALL;
use crate::elf_section_flags::ELF_SECTION_ALLOCATED;
use crate::elf_section_kind::ELF_SECTION_KIND_UNUSED;
use crate::layout::le_u32;
use crate::layout::le_word;
use crate::layout::read_u32;
use crate::layout::read_word;
use crate::layout::record_bytes;
use crate::layout::record_size;
use crate::layout::word_bytes;
use crate::layout::word_size;
use vstd::prelude::*;

verus! {

/// What a section header says: its ten fields, in the order in which they are
/// encoded.
pub struct ElfSectionView {
    /// Index of the section's name in the string table of section names.
    pub name: u32,
    /// Type code of the section.
    pub kind: u32,
    /// Raw attribute bits.
    pub flags: usize,
    /// Address at which the section is loaded, 0 if it is not loaded.
    pub address: usize,
    /// Byte offset of the section's contents in the image.
    pub offset: usize,
    /// Length of the section in bytes.
    pub size: usize,
    /// Index of a related section; what it means depends on the type.
    pub link: u32,
    /// Further information; what it means depends on the type.
    pub info: u32,
    /// Alignment asked of `address`; 0 and 1 ask for none.
    pub address_align: usize,
    /// Size of one entry of a section that is a table of equal entries, else
    /// 0.
    pub entry_size: usize,
}

impl ElfSectionView {
    /// The sum of `address` and `size`, wrapped round to the machine word.
    pub open spec fn end_address(self) -> usize {
        if self.address + self.size > usize::MAX {
            (self.address + self.size - usize::MAX - 1) as usize
        } else {
            (self.address + self.size) as usize
        }
    }

    /// Whether the type code marks the header as unused.
    pub open spec fn is_unused(self) -> bool {
        self.kind == ELF_SECTION_KIND_UNUSED
    }

    /// Whether the "allocated" bit is set among the attribute bits.
    pub open spec fn is_allocated(self) -> bool {
        self.flags & ELF_SECTION_ALLOCATED != 0
    }
}

/// The header that the bytes from `at` on encode: the fields follow one
/// another without padding, each least significant byte first.
pub open spec fn decode_record(bytes: Seq<u8>, at: int) -> ElfSectionView
    recommends
        0 <= at,
        at + record_bytes() <= bytes.len(),
{
    ElfSectionView {
        name: le_u32(bytes, at),
        kind: le_u32(bytes, at + 4),
        flags: le_word(bytes, at + 8),
        address: le_word(bytes, at + 8 + word_bytes()),
        offset: le_word(bytes, at + 8 + 2 * word_bytes()),
        size: le_word(bytes, at + 8 + 3 * word_bytes()),
        link: le_u32(bytes, at + 8 + 4 * word_bytes()),
        info: le_u32(bytes, at + 12 + 4 * word_bytes()),
        address_align: le_word(bytes, at + 16 + 4 * word_bytes()),
        entry_size: le_word(bytes, at + 16 + 5 * word_bytes()),
    }
}

/// One header of the section table.
#[derive(Clone, Copy, Debug, PartialEq, Eq)]
pub struct ElfSection {
    name: u32,
    kind: u32,
    flags: usize,
    address: usize,
    offset: usize,
    size: usize,
    link: u32,
    info: u32,
    address_align: usize,
    entry_size: usize,
}

impl View for ElfSection {
    type V = ElfSectionView;

    closed spec fn view(&self) -> ElfSectionView {
        ElfSectionView {
            name: self.name,
            kind: self.kind,
            flags: self.flags,
            address: self.address,
            offset: self.offset,
            size: self.size,
            link: self.link,
            info: self.info,
            address_align: self.address_align,
            entry_size: self.entry_size,
        }
    }
}

impl ElfSection {
    /// A header with the given fields.
    pub fn new(
        name: u32,
        kind: u32,
        flags: usize,
        address: usize,
        offset: usize,
        size: usize,
        link: u32,
        info: u32,
        address_align: usize,
        entry_size: usize,
    ) -> (r: Self)
        ensures
            r@ == (ElfSectionView {
                name,
                kind,
                flags,
                address,
                offset,
                size,
                link,
                info,
                address_align,
                entry_size,
            }),
    {
        ElfSection {
            name,
            kind,
            flags,
            address,
            offset,
            size,
            link,
            info,
            address_align,
            entry_size,
        }
    }

    /// Decodes the header that starts at byte offset `at` of `data`, if the
    /// whole of it lies within `data`.
    pub fn decode(data: &[u8], at: usize) -> (r: Option<Self>)
        ensures
            r is Some <==> at + record_bytes() <= data.len(),
            r matches Some(section) ==> section@ == decode_record(data@, at as int),
    {
        let width: usize = record_size();
        if data.len() >= width && at <= data.len() - width {
            Some(Self::decode_at(data, at))
        } else {
            None
        }
    }

    /// Decodes the header that starts at byte offset `at` of `data`.
    pub(crate) fn decode_at(data: &[u8], at: usize) -> (r: Self)
        requires
            at + record_bytes() <= data.len(),
        ensures
            r@ == decode_record(data@, at as int),
    {
        let word: usize = word_size();
        ElfSection {
            name: read_u32(data, at),
            kind: read_u32(data, at + 4),
            flags: read_word(data, at + 8),
            address: read_word(data, at + 8 + word),
            offset: read_word(data, at + 8 + 2 * word),
            size: read_word(data, at + 8 + 3 * word),
            link: read_u32(data, at + 8 + 4 * word),
            info: read_u32(data, at + 12 + 4 * word),
            address_align: read_word(data, at + 16 + 4 * word),
            entry_size: read_word(data, at + 16 + 5 * word),
        }
    }

    /// Index of the section's name in the string table of section names.
    pub fn name(&self) -> (r: u32)
        ensures
            r == self@.name,
    {
        self.name
    }

    /// Type code of the section.
    pub fn kind(&self) -> (r: u32)
        ensures
            r == self@.kind,
    {
        self.kind
    }

    /// Address at which the section is loaded, 0 if it is not loaded.
    pub fn address(&self) -> (r: usize)
        ensures
            r == self@.address,
    {
        self.address
    }

    /// Byte offset of the section's contents in the image.
    pub fn offset(&self) -> (r: usize)
        ensures
            r == self@.offset,
    {
        self.offset
    }

    /// Length of the section in bytes.
    pub fn size(&self) -> (r: usize)
        ensures
            r == self@.size,
    {
        self.size
    }

    /// Index of a related section.
    pub fn link(&self) -> (r: u32)
        ensures
            r == self@.link,
    {
        self.link
    }

    /// Further information on the section.
    pub fn info(&self) -> (r: u32)
        ensures
            r == self@.info,
    {
        self.info
    }

    /// Alignment asked of the section's address.
    pub fn address_align(&self) -> (r: usize)
        ensures
            r == self@.address_align,
    {
        self.address_align
    }

    /// Size of one entry, if the section is a table of equal entries.
    pub fn entry_size(&self) -> (r: usize)
        ensures
            r == self@.entry_size,
    {
        self.entry_size
    }

    /// First address of the section.
    pub fn start_address(&self) -> (r: usize)
        ensures
            r == self@.address,
    {
        self.address
    }

    /// Address just past the section: `address + size`, wrapped round to the
    /// machine word where the sum does not fit.
    pub fn end_address(&self) -> (r: usize)
        ensures
            r == self@.end_address(),
            self@.address + self@.size <= usize::MAX ==> r == self@.address + self@.size,
    {
        self.address.wrapping_add(self.size)
    }

    /// The attributes of the section: those named attributes whose bit is set
    /// in the raw attribute bits.
    pub fn flags(&self) -> (r: ElfSectionFlags)
        ensures
            r@ == self@.flags & ELF_SECTION_ALL,
    {
        ElfSectionFlags::from_bits_truncate(self.flags)
    }

    /// Whether the section occupies memory at run time.
    pub fn is_allocated(&self) -> (r: bool)
        ensures
            r <==> self@.is_allocated(),
            r <==> mask_contains(self@.flags & ELF_SECTION_ALL, ELF_SECTION_ALLOCATED),
    {
        proof {
            lemma_truncated_membership(self.flags);
        }
        self.flags().contains(ElfSectionFlags::allocated())
    }

    /// Whether the type code marks the header as unused.
    pub fn is_unused(&self) -> (r: bool)
        ensures
            r <==> self@.is_unused(),
    {
        self.kind == ELF_SECTION_KIND_UNUSED
    }
}

} // verus!
