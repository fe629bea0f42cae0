//! A forward cursor over the headers of a section table.

use crate::elf_section::decode_record;
use crate::elf_section::ElfSection;
use crate::elf_section::ElfSectionView;
use crate::error::ElfSectionsError;
use crate::layout::record_bytes;
use crate::layout::record_size;
use vstd::prelude::*;

verus! {

/// Whether `count` headers, the first at byte offset `at` and each `stride`
/// bytes after the one before, lie within `len` bytes.
pub open spec fn headers_fit(len: int, at: int, stride: int, count: int) -> bool {
    count == 0 || at + (count - 1) * stride + record_bytes() <= len
}

/// The `count` headers that `bytes` holds from offset `at` on, `stride` bytes
/// apart, in the order of their offsets.
pub open spec fn headers(bytes: Seq<u8>, at: int, stride: int, count: nat) -> Seq<ElfSectionView> {
    Seq::new(count, |i: int| decode_record(bytes, at + i * stride))
}

/// The headers of `records` that are in use, in their order.
pub open spec fn visible(records: Seq<ElfSectionView>) -> Seq<ElfSectionView> {
    records.filter(|record: ElfSectionView| !record.is_unused())
}

/// How many headers of `records` are unused.
pub open spec fn unused_count(records: Seq<ElfSectionView>) -> nat {
    records.filter(|record: ElfSectionView| record.is_unused()).len()
}

/// How many unused headers stand at the front of `records`, before the first
/// one in use.
pub open spec fn leading_unused(records: Seq<ElfSectionView>) -> int
    decreases records.len(),
{
    if records.len() == 0 || !records[0].is_unused() {
        0
    } else {
        1 + leading_unused(records.drop_first())
    }
}

/// A forward cursor over section headers encoded in a span of bytes.
///
/// The cursor holds the headers that it has not read yet, [`Self::pending`].
/// It yields those of them that are in use, in their order: its view.
#[derive(Debug)]
pub struct ElfSectionIter<'a> {
    data: &'a [u8],
    position: usize,
    remaining_sections: u32,
    entry_size: u32,
}

impl<'a> Clone for ElfSectionIter<'a> {
    /// A second cursor at the same place, which moves on its own.
    fn clone(&self) -> (r: Self)
        ensures
            r == *self,
    {
        *self
    }
}

impl<'a> Copy for ElfSectionIter<'a> {

}

impl<'a> View for ElfSectionIter<'a> {
    type V = Seq<ElfSectionView>;

    /// The headers still to be yielded.
    open spec fn view(&self) -> Seq<ElfSectionView> {
        visible(self.pending())
    }
}

impl<'a> ElfSectionIter<'a> {
    #[verifier::type_invariant]
    spec fn within_data(self) -> bool {
        headers_fit(
            self.data@.len() as int,
            self.position as int,
            self.entry_size as int,
            self.remaining_sections as int,
        )
    }

    /// The headers not read yet, unused ones among them.
    pub closed spec fn pending(&self) -> Seq<ElfSectionView> {
        headers(
            self.data@,
            self.position as int,
            self.entry_size as int,
            self.remaining_sections as nat,
        )
    }

    /// A cursor over `remaining_sections` headers, the first at the start of
    /// `data` and each `entry_size` bytes after the one before.
    ///
    /// Fails where `data` ends before the last of these headers does.
    pub fn new(data: &'a [u8], remaining_sections: u32, entry_size: u32) -> (r: Result<
        Self,
        ElfSectionsError,
    >)
        ensures
            r is Ok <==> headers_fit(
                data@.len() as int,
                0,
                entry_size as int,
                remaining_sections as int,
            ),
            r matches Ok(cursor) ==> cursor.pending() == headers(
                data@,
                0,
                entry_size as int,
                remaining_sections as nat,
            ),
            r matches Err(e) ==> e == ElfSectionsError::TruncatedTable,
    {
        if Self::fits(data.len(), 0, entry_size, remaining_sections) {
            Ok(Self::starting_at(data, 0, remaining_sections, entry_size))
        } else {
            Err(ElfSectionsError::TruncatedTable)
        }
    }

    /// Reads on to the next header in use and yields it; yields nothing once
    /// no header in use is left.
    ///
    /// Every header read leaves the pending ones, the unused ones that stand
    /// before the yielded one as well.
    pub fn next(&mut self) -> (r: Option<ElfSection>)
        ensures
            leading_unused(old(self).pending()) < old(self).pending().len() ==> {
                &&& r matches Some(section)
                &&& section@ == old(self).pending()[leading_unused(old(self).pending())]
                &&& final(self).pending() == old(self).pending().skip(
                    leading_unused(old(self).pending()) + 1,
                )
            },
            leading_unused(old(self).pending()) >= old(self).pending().len() ==> {
                &&& r is None
                &&& final(self).pending().len() == 0
            },
            r is Some <==> old(self)@.len() > 0,
            r matches Some(section) ==> {
                &&& !section@.is_unused()
                &&& section@ == old(self)@[0]
                &&& final(self)@ == old(self)@.drop_first()
            },
            r is None ==> final(self)@ == old(self)@,
    {
        proof {
            use_type_invariant(&*self);
        }
        let data: &'a [u8] = self.data;
        let stride: u32 = self.entry_size;
        let ghost start: int = self.position as int;
        let ghost total: int = self.remaining_sections as int;
        let ghost before: Seq<ElfSectionView> = self.pending();
        let mut position: usize = self.position;
        let mut remaining: u32 = self.remaining_sections;
        let mut found: Option<ElfSection> = None;
        while remaining > 0 && found.is_none()
            invariant
                remaining <= total,
                headers_fit(data@.len() as int, position as int, stride as int, remaining as int),
                remaining > 0 ==> position == start + (total - remaining) * stride,
                before == headers(data@, start, stride as int, total as nat),
                found is None ==> forall|i: int|
                    0 <= i < total - remaining ==> (#[trigger] before[i]).is_unused(),
                found matches Some(section) ==> {
                    &&& total - remaining >= 1
                    &&& section@ == before[total - remaining - 1]
                    &&& !section@.is_unused()
                    &&& forall|i: int|
                        0 <= i < total - remaining - 1 ==> (#[trigger] before[i]).is_unused()
                },
            decreases remaining,
        {
            proof {
                lemma_product_nonnegative(remaining - 1, stride as int);
                lemma_product_step(remaining - 2, stride as int);
                lemma_product_step(total - remaining, stride as int);
            }
            let section: ElfSection = ElfSection::decode_at(data, position);
            remaining = remaining - 1;
            if remaining > 0 {
                proof {
                    lemma_product_nonnegative(remaining - 1, stride as int);
                    assert(data.len() == data@.len());
                }
                position = position + stride as usize;
            }
            if !section.is_unused() {
                found = Some(section);
            }
        }
        proof {
            let consumed: int = total - remaining;
            let after: Seq<ElfSectionView> = headers(
                data@,
                position as int,
                stride as int,
                remaining as nat,
            );
            assert(after =~= before.skip(consumed)) by {
                assert forall|i: int| 0 <= i < remaining implies after[i] == before[consumed
                    + i] by {
                    lemma_product_sum(consumed, i, stride as int);
                }
            }
            if found is None {
                lemma_leading_unused(before, consumed);
            } else {
                lemma_leading_unused(before, consumed - 1);
            }
            lemma_visible_after_leading(before);
        }
        *self = ElfSectionIter {
            data,
            position,
            remaining_sections: remaining,
            entry_size: stride,
        };
        found
    }

    /// Reads to the end and tells how many headers were still to be yielded.
    pub fn count(self) -> (r: usize)
        ensures
            r == self@.len(),
    {
        let mut cursor: ElfSectionIter<'a> = self;
        let mut seen: usize = 0;
        proof {
            use_type_invariant(&cursor);
            lemma_visible_len(cursor.pending());
        }
        loop
            invariant_except_break
                seen + cursor@.len() == self@.len(),
                self@.len() <= u32::MAX,
            ensures
                seen == self@.len(),
            decreases cursor@.len(),
        {
            match cursor.next() {
                Some(_) => {
                    seen = seen + 1;
                },
                None => {
                    break ;
                },
            }
        }
        seen
    }

    /// A cursor over `remaining_sections` headers of `data`, the first at byte
    /// offset `position`.
    pub(crate) fn starting_at(
        data: &'a [u8],
        position: usize,
        remaining_sections: u32,
        entry_size: u32,
    ) -> (r: Self)
        requires
            headers_fit(
                data@.len() as int,
                position as int,
                entry_size as int,
                remaining_sections as int,
            ),
        ensures
            r.pending() == headers(
                data@,
                position as int,
                entry_size as int,
                remaining_sections as nat,
            ),
    {
        ElfSectionIter { data, position, remaining_sections, entry_size }
    }

    /// Whether `count` headers from offset `at` on, `stride` bytes apart, lie
    /// within `len` bytes.
    pub(crate) fn fits(len: usize, at: usize, stride: u32, count: u32) -> (r: bool)
        ensures
            r <==> headers_fit(len as int, at as int, stride as int, count as int),
    {
        if count == 0 {
            return true;
        }
        let width: usize = record_size();
        if len < width || at > len - width {
            assert((count - 1) * stride >= 0) by (nonlinear_arith)
                requires
                    count >= 1,
                    stride >= 0,
            ;
            return false;
        }
        let room: u64 = (len - width - at) as u64;
        let steps: u64 = (count - 1) as u64;
        assert(steps * (stride as u64) <= 0xFFFF_FFFF * 0xFFFF_FFFF) by (nonlinear_arith)
            requires
                steps <= 0xFFFF_FFFF,
                stride <= 0xFFFF_FFFF,
        ;
        steps * (stride as u64) <= room
    }
}

/// A product of two numbers that are not negative is not negative.
pub(crate) proof fn lemma_product_nonnegative(a: int, b: int)
    requires
        0 <= a,
        0 <= b,
    ensures
        0 <= a * b,
{
    assert(0 <= a * b) by (nonlinear_arith)
        requires
            0 <= a,
            0 <= b,
    ;
}

/// One more step is one more stride.
pub(crate) proof fn lemma_product_step(a: int, b: int)
    ensures
        (a + 1) * b == a * b + b,
{
    assert((a + 1) * b == a * b + b) by (nonlinear_arith);
}

/// Steps add up.
pub(crate) proof fn lemma_product_sum(a: int, b: int, c: int)
    ensures
        (a + b) * c == a * c + b * c,
{
    assert((a + b) * c == a * c + b * c) by (nonlinear_arith);
}

/// What is in use of a sequence of headers is what is in use of its tail,
/// behind the first header where that one is in use.
pub proof fn lemma_visible_unfold(records: Seq<ElfSectionView>)
    requires
        records.len() > 0,
    ensures
        records[0].is_unused() ==> visible(records) == visible(records.drop_first()),
        !records[0].is_unused() ==> visible(records) == seq![records[0]] + visible(
            records.drop_first(),
        ),
{
    let in_use = |record: ElfSectionView| !record.is_unused();
    let head = seq![records[0]];
    assert(records =~= head + records.drop_first());
    Seq::filter_distributes_over_add(head, records.drop_first(), in_use);
    assert(head.filter(in_use) =~= if records[0].is_unused() {
        Seq::empty()
    } else {
        head
    }) by {
        reveal_with_fuel(Seq::filter, 2);
        assert(head.drop_last() =~= Seq::<ElfSectionView>::empty());
    }
    assert(Seq::<ElfSectionView>::empty() + visible(records.drop_first()) =~= visible(
        records.drop_first(),
    ));
}

/// The unused headers at the front are counted up to the first header in use.
pub proof fn lemma_leading_unused(records: Seq<ElfSectionView>, k: int)
    requires
        0 <= k <= records.len(),
        forall|i: int| 0 <= i < k ==> (#[trigger] records[i]).is_unused(),
        k < records.len() ==> !records[k].is_unused(),
    ensures
        leading_unused(records) == k,
    decreases k,
{
    if k > 0 {
        let tail = records.drop_first();
        assert forall|i: int| 0 <= i < k - 1 implies (#[trigger] tail[i]).is_unused() by {
            assert(tail[i] == records[i + 1]);
        }
        lemma_leading_unused(tail, k - 1);
    }
}

/// The first header in use is the one behind the leading unused ones, and what
/// is in use behind it is the rest of what is in use.
pub proof fn lemma_visible_after_leading(records: Seq<ElfSectionView>)
    ensures
        0 <= leading_unused(records) <= records.len(),
        leading_unused(records) == records.len() ==> visible(records).len() == 0,
        leading_unused(records) < records.len() ==> {
            &&& visible(records).len() > 0
            &&& visible(records)[0] == records[leading_unused(records)]
            &&& !records[leading_unused(records)].is_unused()
            &&& visible(records).drop_first() == visible(
                records.skip(leading_unused(records) + 1),
            )
        },
    decreases records.len(),
{
    if records.len() == 0 {
        reveal_with_fuel(Seq::filter, 1);
    } else {
        let tail = records.drop_first();
        lemma_visible_unfold(records);
        if records[0].is_unused() {
            lemma_visible_after_leading(tail);
            let k = leading_unused(tail);
            if k < tail.len() {
                assert(tail.skip(k + 1) =~= records.skip(k + 2));
            }
        } else {
            assert((seq![records[0]] + visible(tail)).drop_first() =~= visible(tail));
            assert(records.skip(1) =~= tail);
        }
    }
}

/// Every header is either in use or unused: those in use and the unused ones
/// add up to all.
pub proof fn lemma_visible_len(records: Seq<ElfSectionView>)
    ensures
        visible(records).len() + unused_count(records) == records.len(),
    decreases records.len(),
{
    reveal_with_fuel(Seq::filter, 1);
    if records.len() > 0 {
        lemma_visible_len(records.drop_last());
    }
}

} // verus!
