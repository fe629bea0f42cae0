//! The type codes that a section header can carry in its `kind` field.

use vstd::prelude::*;

verus! {

/// What a section holds, as far as the type code of its header names it.
///
/// Codes above [`ElfSectionKind::DynamicLoaderSymbolTable`] belong to ranges
/// kept for the environment and for the processor; they have no variant.
#[derive(Clone, Copy, Debug, PartialEq, Eq, Hash)]
pub enum ElfSectionKind {
    /// An inactive header without a section; a cursor over the table hides it.
    Unused,
    /// Information defined by the program.
    ProgramSection,
    /// The symbol table for link editing.
    LinkerSymbolTable,
    /// A string table.
    StringTable,
    /// Relocation entries with explicit addends.
    RelaRelocation,
    /// A symbol hash table.
    SymbolHashTable,
    /// Information for dynamic linking.
    DynamicLinkingTable,
    /// A note.
    Note,
    /// A section that occupies no space in the file.
    Uninitialized,
    /// Relocation entries without explicit addends.
    RelRelocation,
    /// A reserved code.
    Reserved,
    /// The minimal symbol table of the dynamic loader.
    DynamicLoaderSymbolTable,
}

/// The type code that marks a header as unused.
pub const ELF_SECTION_KIND_UNUSED: u32 = 0;

impl ElfSectionKind {
    /// The type code of this kind, as a header stores it.
    pub open spec fn spec_code(self) -> u32 {
        match self {
            ElfSectionKind::Unused => 0,
            ElfSectionKind::ProgramSection => 1,
            ElfSectionKind::LinkerSymbolTable => 2,
            ElfSectionKind::StringTable => 3,
            ElfSectionKind::RelaRelocation => 4,
            ElfSectionKind::SymbolHashTable => 5,
            ElfSectionKind::DynamicLinkingTable => 6,
            ElfSectionKind::Note => 7,
            ElfSectionKind::Uninitialized => 8,
            ElfSectionKind::RelRelocation => 9,
            ElfSectionKind::Reserved => 10,
            ElfSectionKind::DynamicLoaderSymbolTable => 11,
        }
    }

    /// The type code of this kind, as a header stores it.
    #[verifier::when_used_as_spec(spec_code)]
    pub fn code(self) -> (r: u32)
        ensures
            r == self.spec_code(),
    {
        match self {
            ElfSectionKind::Unused => 0,
            ElfSectionKind::ProgramSection => 1,
            ElfSectionKind::LinkerSymbolTable => 2,
            ElfSectionKind::StringTable => 3,
            ElfSectionKind::RelaRelocation => 4,
            ElfSectionKind::SymbolHashTable => 5,
            ElfSectionKind::DynamicLinkingTable => 6,
            ElfSectionKind::Note => 7,
            ElfSectionKind::Uninitialized => 8,
            ElfSectionKind::RelRelocation => 9,
            ElfSectionKind::Reserved => 10,
            ElfSectionKind::DynamicLoaderSymbolTable => 11,
        }
    }

    /// The kind that a type code names, if it names one.
    pub fn from_code(code: u32) -> (r: Option<ElfSectionKind>)
        ensures
            r is Some <==> code <= 11,
            r matches Some(kind) ==> kind.code() == code,
    {
        match code {
            0 => Some(ElfSectionKind::Unused),
            1 => Some(ElfSectionKind::ProgramSection),
            2 => Some(ElfSectionKind::LinkerSymbolTable),
            3 => Some(ElfSectionKind::StringTable),
            4 => Some(ElfSectionKind::RelaRelocation),
            5 => Some(ElfSectionKind::SymbolHashTable),
            6 => Some(ElfSectionKind::DynamicLinkingTable),
            7 => Some(ElfSectionKind::Note),
            8 => Some(ElfSectionKind::Uninitialized),
            9 => Some(ElfSectionKind::RelRelocation),
            10 => Some(ElfSectionKind::Reserved),
            11 => Some(ElfSectionKind::DynamicLoaderSymbolTable),
            _ => None,
        }
    }
}

/// Distinct kinds have distinct type codes, and `Unused` is the one kind
/// whose code is [`ELF_SECTION_KIND_UNUSED`].
pub proof fn lemma_code_is_injective(a: ElfSectionKind, b: ElfSectionKind)
    ensures
        a.code() == b.code() ==> a == b,
        a.code() == ELF_SECTION_KIND_UNUSED <==> a == ElfSectionKind::Unused,
        a.code() <= 11,
{
}

} // verus!
