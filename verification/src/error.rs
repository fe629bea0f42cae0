//! Why a span of bytes is refused as a section table.

use vstd::prelude::*;

verus! {

/// The ways in which a span of bytes can fail to hold the section table that
/// it is said to hold.
#[derive(Clone, Copy, Debug, PartialEq, Eq, Hash)]
pub enum ElfSectionsError {
    /// The bytes end before the fixed part of the table and its first header
    /// do.
    TruncatedHeader,
    /// The table declares no section at all, not even its first.
    NoSections,
    /// The declared distance between headers is not the size of one header.
    EntrySizeMismatch,
    /// The bytes end before the last declared header does.
    TruncatedTable,
}

} // verus!
