//! Bit primitives: field extraction, bit splicing and sign extension.

use vstd::prelude::*;
use crate::arch::XWord;

verus! {

/// A bit range `[start, end)` that the primitives accept: it lies inside the word
/// and is narrower than the word.
pub open spec fn valid_range(start: u64, end: u64) -> bool {
    start <= end && end <= 64 && start < 64 && end - start < 64
}

/// The word whose low `width` bits are set, for `width < 64`.
pub open spec fn low_mask(width: u64) -> u64 {
    ((1u64 << width) - 1) as u64
}

/// Bits `[start, end)` of `value`, right-aligned.
pub open spec fn spec_bits(value: u64, start: u64, end: u64) -> u64 {
    (value >> start) & low_mask((end - start) as u64)
}

/// `high` followed by the `width` bits of `low`.
pub open spec fn concat_bits(high: u64, low: u64, width: u64) -> u64 {
    (high << width) | low
}

/// The ranges of `value` concatenated left to right, each contributing
/// `end - start` bits.
pub open spec fn spec_twiddle(value: u64, ranges: Seq<(u64, u64)>) -> u64
    decreases ranges.len(),
{
    if ranges.len() == 0 {
        0
    } else {
        let (start, end) = ranges.last();
        concat_bits(
            spec_twiddle(value, ranges.drop_last()),
            spec_bits(value, start, end),
            (end - start) as u64,
        )
    }
}

/// Bit `index` of `value`, as 0 or 1.
pub open spec fn bit(value: u64, index: u64) -> u64 {
    (value >> index) & 1
}

/// `data` with every bit above `index` replaced by bit `index`.
pub open spec fn spec_sign_extend(data: u64, index: u64) -> u64 {
    if data & (1u64 << index) == 0 {
        data & (u64::MAX >> ((63 - index) as u64))
    } else {
        data | ((u64::MAX >> index) << index)
    }
}

proof fn lemma_low_mask(width: u64)
    by (bit_vector)
    requires
        width < 64,
    ensures
        (1u64 << width) >= 1,
{
}

/// Bounds of the fields of the widths that the encodings use.
pub proof fn lemma_field_bounds(value: u64, start: u64)
    by (bit_vector)
    requires
        start < 64,
    ensures
        start + 1 <= 64 ==> spec_bits(value, start, (start + 1) as u64) < 2,
        start + 2 <= 64 ==> spec_bits(value, start, (start + 2) as u64) < 4,
        start + 3 <= 64 ==> spec_bits(value, start, (start + 3) as u64) < 8,
        start + 4 <= 64 ==> spec_bits(value, start, (start + 4) as u64) < 16,
        start + 5 <= 64 ==> spec_bits(value, start, (start + 5) as u64) < 32,
        start + 6 <= 64 ==> spec_bits(value, start, (start + 6) as u64) < 64,
        start + 7 <= 64 ==> spec_bits(value, start, (start + 7) as u64) < 128,
        start + 8 <= 64 ==> spec_bits(value, start, (start + 8) as u64) < 256,
        start + 11 <= 64 ==> spec_bits(value, start, (start + 11) as u64) < 2048,
        start + 12 <= 64 ==> spec_bits(value, start, (start + 12) as u64) < 4096,
        start + 20 <= 64 ==> spec_bits(value, start, (start + 20) as u64) < 0x10_0000,
{
}

/// Every bit of a sign extension at or below `index` is the bit of `data`, and
/// every bit above it is bit `index` of `data`.
pub proof fn lemma_sign_extend_bits(data: u64, index: u64, j: u64)
    by (bit_vector)
    requires
        index < 64,
        j < 64,
    ensures
        j <= index ==> bit(spec_sign_extend(data, index), j) == bit(data, j),
        j > index ==> bit(spec_sign_extend(data, index), j) == bit(data, index),
{
}

/// Extracts bits `[start, end)` of `value`, right-aligned.
pub fn bits(value: XWord, start: u64, end: u64) -> (r: XWord)
    requires
        valid_range(start, end),
    ensures
        r == spec_bits(value, start, end),
{
    let width: u64 = end - start;
    proof {
        lemma_low_mask(width);
    }
    (value >> start) & ((1u64 << width) - 1)
}

/// Appends the `width` bits of `low` to `high`.
pub fn concat(high: XWord, low: XWord, width: u64) -> (r: XWord)
    requires
        width < 64,
    ensures
        r == concat_bits(high, low, width),
{
    (high << width) | low
}

/// Concatenates the named bit ranges of `value` left to right into one scalar.
pub fn twiddle(value: XWord, ranges: &[(u64, u64)]) -> (r: XWord)
    requires
        forall|i: int|
            0 <= i < ranges@.len() ==> valid_range(#[trigger] ranges@[i].0, ranges@[i].1),
    ensures
        r == spec_twiddle(value, ranges@),
{
    let mut result: XWord = 0;
    let mut i: usize = 0;
    while i < ranges.len()
        invariant
            i <= ranges@.len(),
            forall|k: int|
                0 <= k < ranges@.len() ==> valid_range(#[trigger] ranges@[k].0, ranges@[k].1),
            result == spec_twiddle(value, ranges@.take(i as int)),
        decreases ranges@.len() - i,
    {
        let (start, end) = ranges[i];
        let field: XWord = bits(value, start, end);
        proof {
            assert(ranges@.take(i + 1).drop_last() =~= ranges@.take(i as int));
            assert(ranges@.take(i + 1).last() == ranges@[i as int]);
        }
        result = (result << (end - start)) | field;
        i = i + 1;
    }
    proof {
        assert(ranges@.take(i as int) =~= ranges@);
    }
    result
}

/// Sign-extends the value embedded in the low bits of `data` up to bit `index`:
/// the bits above `index` all become bit `index`.
pub fn sign_extend(data: XWord, index: XWord) -> (r: XWord)
    requires
        index < 64,
    ensures
        r == spec_sign_extend(data, index),
        forall|j: u64| j <= index ==> bit(r, j) == bit(data, j),
        forall|j: u64| index < j < 64 ==> bit(r, j) == bit(data, index),
{
    let r: XWord = if data & (1u64 << index) == 0 {
        data & (u64::MAX >> (63 - index))
    } else {
        data | ((u64::MAX >> index) << index)
    };
    proof {
        assert forall|j: u64| j <= index implies bit(r, j) == bit(data, j) by {
            lemma_sign_extend_bits(data, index, j);
        }
        assert forall|j: u64| index < j < 64 implies bit(r, j) == bit(data, index) by {
            lemma_sign_extend_bits(data, index, j);
        }
    }
    r
}

} // verus!
