//! The section table as the boot information holds it: five 32-bit fields,
//! then the section headers, the first of them directly behind the fields.

use crate::elf_section::ElfSection;
use crate::elf_section::ElfSectionView;
use crate::elf_section_iter::headers;
use crate::elf_section_iter::headers_fit;
use crate::elf_section_iter::lemma_product_nonnegative;
use crate::elf_section_iter::lemma_product_step;
use crate::elf_section_iter::lemma_visible_len;
use crate::elf_section_iter::lemma_visible_unfold;
use crate::elf_section_iter::unused_count;
use crate::elf_section_iter::visible;
use crate::elf_section_iter::ElfSectionIter;
use crate::error::ElfSectionsError;
use crate::layout::le_u32;
use crate::layout::read_u32;
use crate::layout::record_bytes;
use crate::layout::record_size;
use crate::layout::TABLE_HEADER_SIZE;
use vstd::prelude::*;

verus! {

/// What a section table says: its five fields and its headers.
pub struct ElfSectionsTagView {
    /// The tag that marks the table within the boot information.
    pub kind: u32,
    /// Length in bytes that the table declares for itself.
    pub size: u32,
    /// Number of headers, the first one counted.
    pub number_of_sections: u32,
    /// Distance in bytes from one header to the next.
    pub entry_size: u32,
    /// Index of the header of the string table that holds the section names.
    pub shndx: u32,
    /// The headers in the order of the table; the first is the one that
    /// stands directly behind the fields.
    pub records: Seq<ElfSectionView>,
}

/// The table that `bytes` encode: the fields least significant byte first,
/// the headers from offset 20 on with no padding before the first.
pub open spec fn decode_table(bytes: Seq<u8>) -> ElfSectionsTagView {
    ElfSectionsTagView {
        kind: le_u32(bytes, 0),
        size: le_u32(bytes, 4),
        number_of_sections: le_u32(bytes, 8),
        entry_size: le_u32(bytes, 12),
        shndx: le_u32(bytes, 16),
        records: headers(
            bytes,
            TABLE_HEADER_SIZE as int,
            le_u32(bytes, 12) as int,
            le_u32(bytes, 8) as nat,
        ),
    }
}

/// What is wrong with `bytes` as a section table, if anything is. Of several
/// faults the first in this order is named: the bytes end before the first
/// header does; no section is declared; the entry size is not the size of a
/// header; the bytes end before the last header does.
pub open spec fn table_fault(bytes: Seq<u8>) -> Option<ElfSectionsError> {
    if bytes.len() < TABLE_HEADER_SIZE as int + record_bytes() {
        Some(ElfSectionsError::TruncatedHeader)
    } else if le_u32(bytes, 8) == 0 {
        Some(ElfSectionsError::NoSections)
    } else if le_u32(bytes, 12) != record_bytes() {
        Some(ElfSectionsError::EntrySizeMismatch)
    } else if !headers_fit(
        bytes.len() as int,
        TABLE_HEADER_SIZE as int,
        le_u32(bytes, 12) as int,
        le_u32(bytes, 8) as int,
    ) {
        Some(ElfSectionsError::TruncatedTable)
    } else {
        None
    }
}

/// A section table, read in place from the bytes that encode it.
///
/// The bytes have no fault ([`table_fault`]): every declared header lies
/// within them.
#[derive(Clone, Copy, Debug)]
pub struct ElfSectionsTag<'a> {
    data: &'a [u8],
}

impl<'a> View for ElfSectionsTag<'a> {
    type V = ElfSectionsTagView;

    closed spec fn view(&self) -> ElfSectionsTagView {
        decode_table(self.data@)
    }
}

impl<'a> ElfSectionsTag<'a> {
    #[verifier::type_invariant]
    spec fn faultless(self) -> bool {
        table_fault(self.data@) is None
    }

    /// Takes `data` as a section table, or tells what is wrong with it.
    pub fn from_bytes(data: &'a [u8]) -> (r: Result<Self, ElfSectionsError>)
        ensures
            r is Ok <==> table_fault(data@) is None,
            r matches Ok(tag) ==> tag@ == decode_table(data@),
            r matches Err(e) ==> table_fault(data@) == Some(e),
    {
        let width: usize = record_size();
        if data.len() < TABLE_HEADER_SIZE + width {
            return Err(ElfSectionsError::TruncatedHeader);
        }
        let number_of_sections: u32 = read_u32(data, 8);
        let entry_size: u32 = read_u32(data, 12);
        if number_of_sections == 0 {
            return Err(ElfSectionsError::NoSections);
        }
        if entry_size as usize != width {
            return Err(ElfSectionsError::EntrySizeMismatch);
        }
        if !ElfSectionIter::fits(data.len(), TABLE_HEADER_SIZE, entry_size, number_of_sections) {
            return Err(ElfSectionsError::TruncatedTable);
        }
        Ok(ElfSectionsTag { data })
    }

    /// The tag that marks the table within the boot information.
    pub fn kind(&self) -> (r: u32)
        ensures
            r == self@.kind,
    {
        proof {
            use_type_invariant(self);
        }
        read_u32(self.data, 0)
    }

    /// Length in bytes that the table declares for itself.
    pub fn size(&self) -> (r: u32)
        ensures
            r == self@.size,
    {
        proof {
            use_type_invariant(self);
        }
        read_u32(self.data, 4)
    }

    /// Number of headers in the table, the first one counted: at least one.
    pub fn number_of_sections(&self) -> (r: u32)
        ensures
            r == self@.number_of_sections,
            r == self@.records.len(),
            r >= 1,
    {
        proof {
            use_type_invariant(self);
        }
        read_u32(self.data, 8)
    }

    /// Distance in bytes from one header to the next: the size of a header.
    pub fn entry_size(&self) -> (r: u32)
        ensures
            r == self@.entry_size,
            r == record_bytes(),
    {
        proof {
            use_type_invariant(self);
        }
        read_u32(self.data, 12)
    }

    /// Index of the header of the string table that holds the section names.
    pub fn shndx(&self) -> (r: u32)
        ensures
            r == self@.shndx,
    {
        proof {
            use_type_invariant(self);
        }
        read_u32(self.data, 16)
    }

    /// The first header of the table, unused or not.
    pub fn first_section(&self) -> (r: ElfSection)
        ensures
            r@ == self@.records[0],
    {
        proof {
            use_type_invariant(self);
            lemma_product_nonnegative(
                le_u32(self.data@, 8) - 1,
                le_u32(self.data@, 12) as int,
            );
        }
        ElfSection::decode_at(self.data, TABLE_HEADER_SIZE)
    }

    /// A cursor over the headers behind the first one.
    ///
    /// The first header is never among those that the cursor reads, whatever
    /// its kind; of the others the cursor yields those in use.
    pub fn sections(&self) -> (r: ElfSectionIter<'a>)
        ensures
            r.pending() == self@.records.drop_first(),
            r.pending().len() == self@.number_of_sections - 1,
            r@ == visible(self@.records.drop_first()),
            self@.number_of_sections == 1 ==> r@.len() == 0,
    {
        proof {
            use_type_invariant(self);
        }
        let number_of_sections: u32 = read_u32(self.data, 8);
        let entry_size: u32 = read_u32(self.data, 12);
        proof {
            lemma_product_step(number_of_sections - 2, entry_size as int);
            assert(self.data.len() == self.data@.len());
        }
        let cursor = ElfSectionIter::starting_at(
            self.data,
            TABLE_HEADER_SIZE + entry_size as usize,
            number_of_sections - 1,
            entry_size,
        );
        proof {
            let all = self@.records;
            assert(cursor.pending() =~= all.drop_first()) by {
                assert forall|i: int| 0 <= i < number_of_sections - 1 implies cursor.pending()[i]
                    == all[i + 1] by {
                    lemma_product_step(i, entry_size as int);
                }
            }
            lemma_visible_len(cursor.pending());
        }
        cursor
    }
}

/// Of a table of `N` headers, `k` of them unused, the cursor over the headers
/// behind the first yields `N - 1 - k` where the first header is in use, and
/// `N - k` where the first header is itself one of the unused: the first
/// header is never read, so it is neither yielded nor skipped.
pub proof fn lemma_sections_yield_count(table: Seq<ElfSectionView>)
    requires
        table.len() >= 1,
    ensures
        !table[0].is_unused() ==> visible(table.drop_first()).len() == table.len() - 1
            - unused_count(table),
        table[0].is_unused() ==> visible(table.drop_first()).len() == table.len() - unused_count(
            table,
        ),
{
    lemma_visible_len(table);
    lemma_visible_len(table.drop_first());
    lemma_visible_unfold(table);
}

} // verus!
