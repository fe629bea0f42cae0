//! Attribute flags of a section, decoded from the raw `flags` word of its
//! header.

use vstd::prelude::*;

verus! {

/// Mask of the "writable at run time" attribute (bit 0).
pub const ELF_SECTION_WRITABLE: usize = 0x1;

/// Mask of the "occupies memory at run time" attribute (bit 1).
pub const ELF_SECTION_ALLOCATED: usize = 0x2;

/// Mask of the "holds executable machine code" attribute (bit 2).
pub const ELF_SECTION_EXECUTABLE: usize = 0x4;

/// Mask of every named attribute.
pub const ELF_SECTION_ALL: usize = 0x7;

/// Whether every bit of `other` is set in `mask`.
pub open spec fn mask_contains(mask: usize, other: usize) -> bool {
    mask & other == other
}

/// A set of section attributes.
///
/// Its view is the bit mask of its members. Only the named attributes can be
/// members, so every bit outside [`ELF_SECTION_ALL`] is clear.
#[derive(Clone, Copy, Debug, PartialEq, Eq, Hash)]
pub struct ElfSectionFlags {
    bits: usize,
}

impl View for ElfSectionFlags {
    type V = usize;

    closed spec fn view(&self) -> usize {
        self.bits
    }
}

impl ElfSectionFlags {
    #[verifier::type_invariant]
    spec fn only_named_bits(self) -> bool {
        self.bits & ELF_SECTION_ALL == self.bits
    }

    /// The set without members.
    pub fn empty() -> (r: Self)
        ensures
            r@ == 0,
    {
        assert(0usize & 0x7 == 0usize) by (bit_vector);
        ElfSectionFlags { bits: 0 }
    }

    /// The set of every named attribute.
    pub fn all() -> (r: Self)
        ensures
            r@ == ELF_SECTION_ALL,
    {
        assert(0x7usize & 0x7 == 0x7usize) by (bit_vector);
        ElfSectionFlags { bits: ELF_SECTION_ALL }
    }

    /// The set whose one member is "writable".
    pub fn writable() -> (r: Self)
        ensures
            r@ == ELF_SECTION_WRITABLE,
    {
        assert(0x1usize & 0x7 == 0x1usize) by (bit_vector);
        ElfSectionFlags { bits: ELF_SECTION_WRITABLE }
    }

    /// The set whose one member is "allocated".
    pub fn allocated() -> (r: Self)
        ensures
            r@ == ELF_SECTION_ALLOCATED,
    {
        assert(0x2usize & 0x7 == 0x2usize) by (bit_vector);
        ElfSectionFlags { bits: ELF_SECTION_ALLOCATED }
    }

    /// The set whose one member is "executable".
    pub fn executable() -> (r: Self)
        ensures
            r@ == ELF_SECTION_EXECUTABLE,
    {
        assert(0x4usize & 0x7 == 0x4usize) by (bit_vector);
        ElfSectionFlags { bits: ELF_SECTION_EXECUTABLE }
    }

    /// The bit mask of the members.
    pub fn bits(&self) -> (r: usize)
        ensures
            r == self@,
            r & ELF_SECTION_ALL == r,
    {
        proof {
            use_type_invariant(self);
        }
        self.bits
    }

    /// Decodes a raw mask, refusing one that has a bit set outside the named
    /// attributes.
    pub fn from_bits(raw: usize) -> (r: Option<Self>)
        ensures
            r is Some <==> raw & ELF_SECTION_ALL == raw,
            r matches Some(flags) ==> flags@ == raw,
    {
        if raw & ELF_SECTION_ALL == raw {
            Some(ElfSectionFlags { bits: raw })
        } else {
            None
        }
    }

    /// Decodes a raw mask, dropping every bit outside the named attributes.
    ///
    /// Any bit pattern is accepted. Each named attribute is a member exactly
    /// when its bit is set in `raw`, whatever the other bits hold.
    pub fn from_bits_truncate(raw: usize) -> (r: Self)
        ensures
            r@ == raw & ELF_SECTION_ALL,
            mask_contains(r@, ELF_SECTION_WRITABLE) <==> raw & ELF_SECTION_WRITABLE != 0,
            mask_contains(r@, ELF_SECTION_ALLOCATED) <==> raw & ELF_SECTION_ALLOCATED != 0,
            mask_contains(r@, ELF_SECTION_EXECUTABLE) <==> raw & ELF_SECTION_EXECUTABLE != 0,
    {
        proof {
            lemma_truncated_membership(raw);
        }
        assert((raw & 0x7) & 0x7 == raw & 0x7) by (bit_vector);
        ElfSectionFlags { bits: raw & ELF_SECTION_ALL }
    }

    /// Whether the set has no member.
    pub fn is_empty(&self) -> (r: bool)
        ensures
            r <==> self@ == 0,
    {
        self.bits == 0
    }

    /// Whether every member of `other` is a member of this set.
    pub fn contains(&self, other: ElfSectionFlags) -> (r: bool)
        ensures
            r <==> mask_contains(self@, other@),
    {
        self.bits & other.bits == other.bits
    }
}

/// In a truncated mask each named attribute is present exactly when its own
/// bit is set in the raw word.
pub proof fn lemma_truncated_membership(raw: usize)
    ensures
        mask_contains(raw & ELF_SECTION_ALL, ELF_SECTION_WRITABLE) <==> raw & 0x1 != 0,
        mask_contains(raw & ELF_SECTION_ALL, ELF_SECTION_ALLOCATED) <==> raw & 0x2 != 0,
        mask_contains(raw & ELF_SECTION_ALL, ELF_SECTION_EXECUTABLE) <==> raw & 0x4 != 0,
{
    assert(((raw & 0x7) & 0x1 == 0x1) <==> raw & 0x1 != 0) by (bit_vector);
    assert(((raw & 0x7) & 0x2 == 0x2) <==> raw & 0x2 != 0) by (bit_vector);
    assert(((raw & 0x7) & 0x4 == 0x4) <==> raw & 0x4 != 0) by (bit_vector);
}

/// Bits outside the named attributes never reach the decoded set: setting,
/// clearing or flipping any of them in the raw word leaves the truncated mask
/// as it was.
pub proof fn lemma_unknown_bits_ignored(raw: usize, unknown: usize)
    requires
        unknown & ELF_SECTION_ALL == 0,
    ensures
        (raw | unknown) & ELF_SECTION_ALL == raw & ELF_SECTION_ALL,
        (raw & !unknown) & ELF_SECTION_ALL == raw & ELF_SECTION_ALL,
        (raw ^ unknown) & ELF_SECTION_ALL == raw & ELF_SECTION_ALL,
{
    assert((raw | unknown) & 0x7 == raw & 0x7) by (bit_vector)
        requires
            unknown & 0x7 == 0,
    ;
    assert((raw & !unknown) & 0x7 == raw & 0x7) by (bit_vector)
        requires
            unknown & 0x7 == 0,
    ;
    assert((raw ^ unknown) & 0x7 == raw & 0x7) by (bit_vector)
        requires
            unknown & 0x7 == 0,
    ;
}

} // verus!
