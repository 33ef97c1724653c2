//! Bit fields inside a 64-bit word.
//!
//! A field is a run of `width` bits that starts `offset` bits above the least
//! significant bit. Every register layout in this crate is a set of such
//! fields that do not overlap. A value written to a field is cut down to the
//! field's width first, so it can never reach a neighbouring field.

use vstd::arithmetic::power2::{
    lemma2_to64_rest, lemma_pow2_adds, lemma_pow2_strictly_increases, pow2,
};
use vstd::bits::{
    lemma_u64_low_bits_mask_is_mod, lemma_u64_pow2_no_overflow, lemma_u64_shl_is_mul,
    lemma_u64_shr_is_div, low_bits_mask,
};
use vstd::prelude::*;

verus! {

/// The word whose `width` lowest bits are one and whose other bits are zero.
pub open spec fn low_bits(width: u64) -> u64 {
    if width >= 64 {
        0xFFFF_FFFF_FFFF_FFFFu64
    } else {
        !(0xFFFF_FFFF_FFFF_FFFFu64 << width)
    }
}

/// `v` cut down to its `width` lowest bits.
pub open spec fn spec_mask(v: u64, width: u64) -> u64 {
    v & low_bits(width)
}

/// The word that holds `v`, cut down to `width` bits, at `offset`, and zero
/// everywhere else.
pub open spec fn spec_place(v: u64, offset: u64, width: u64) -> u64 {
    spec_mask(v, width) << offset
}

/// The field of `width` bits that `word` holds at `offset`.
pub open spec fn spec_extract(word: u64, offset: u64, width: u64) -> u64 {
    spec_mask(word >> offset, width)
}

/// `word` with the field at `offset` replaced by `v`, cut down to `width`
/// bits. Every bit outside the field is kept.
pub open spec fn spec_insert(word: u64, v: u64, offset: u64, width: u64) -> u64 {
    (word & !(low_bits(width) << offset)) | spec_place(v, offset, width)
}

/// The field lies inside the word.
pub open spec fn fits(offset: u64, width: u64) -> bool {
    offset + width <= 64
}

/// The two fields share no bit.
pub open spec fn disjoint(offset: u64, width: u64, other_offset: u64, other_width: u64) -> bool {
    offset + width <= other_offset || other_offset + other_width <= offset
}

/// Cuts `v` down to its `width` lowest bits. A width of 64 or more keeps `v`
/// whole.
#[verifier::when_used_as_spec(spec_mask)]
pub fn mask(v: u64, width: u64) -> (r: u64)
    ensures
        r == spec_mask(v, width),
{
    if width >= 64 {
        assert(v & 0xFFFF_FFFF_FFFF_FFFFu64 == v) by (bit_vector);
        v
    } else {
        v & !(0xFFFF_FFFF_FFFF_FFFFu64 << width)
    }
}

/// The word that holds the `width` lowest bits of `v` at `offset` and nothing
/// else. Bits pushed past the top of the word are lost.
#[verifier::when_used_as_spec(spec_place)]
pub fn place(v: u64, offset: u64, width: u64) -> (r: u64)
    ensures
        r == spec_place(v, offset, width),
{
    let low = mask(v, width);
    if offset >= 64 {
        assert(low << offset == 0) by (bit_vector)
            requires
                offset >= 64,
        ;
        0
    } else {
        low << offset
    }
}

/// Reads the field of `width` bits at `offset`. Bits past the top of the word
/// read as zero.
#[verifier::when_used_as_spec(spec_extract)]
pub fn extract(word: u64, offset: u64, width: u64) -> (r: u64)
    ensures
        r == spec_extract(word, offset, width),
        r <= low_bits(width),
{
    proof {
        lemma_field_bounds();
    }
    if offset >= 64 {
        assert(spec_mask(word >> offset, width) == 0) by (bit_vector)
            requires
                offset >= 64,
        ;
        0
    } else {
        mask(word >> offset, width)
    }
}

/// Writes the `width` lowest bits of `v` into the field at `offset` and keeps
/// every other bit of `word`.
#[verifier::when_used_as_spec(spec_insert)]
pub fn insert(word: u64, v: u64, offset: u64, width: u64) -> (r: u64)
    ensures
        r == spec_insert(word, v, offset, width),
{
    if offset >= 64 {
        assert(spec_insert(word, v, offset, width) == word) by (bit_vector)
            requires
                offset >= 64,
        ;
        word
    } else {
        let ones = mask(0xFFFF_FFFF_FFFF_FFFFu64, width);
        assert(ones == low_bits(width)) by (bit_vector)
            requires
                ones == spec_mask(0xFFFF_FFFF_FFFF_FFFFu64, width),
        ;
        (word & !(ones << offset)) | (mask(v, width) << offset)
    }
}

/// Cutting a value down twice to the same width is cutting it down once.
pub proof fn lemma_mask_idempotent(v: u64, width: u64)
    by (bit_vector)
    ensures
        mask(mask(v, width), width) == mask(v, width),
{
}

/// A value that already fits the width is not changed by the cut, and the
/// result of a cut always fits.
pub proof fn lemma_mask_fixes_small_values(v: u64, width: u64)
    by (bit_vector)
    ensures
        mask(v, width) <= low_bits(width),
        v <= low_bits(width) <==> mask(v, width) == v,
{
}

/// The fields in numbers: cutting a value to a width is taking its remainder
/// by two to that width, reading a field is dividing by two to the offset
/// and taking the remainder, and placing a value is multiplying its
/// remainder by two to the offset.
pub proof fn lemma_fields_as_numbers(word: u64, v: u64, offset: u64, width: u64)
    requires
        offset < 64,
        width < 64,
    ensures
        mask(v, width) == v as nat % pow2(width as nat),
        extract(word, offset, width) == (word as nat / pow2(offset as nat)) % pow2(width as nat),
        fits(offset, width) ==> place(v, offset, width) == (v as nat % pow2(width as nat)) * pow2(
            offset as nat,
        ),
{
    let w = width as nat;
    let o = offset as nat;
    lemma_u64_pow2_no_overflow(w);
    lemma_u64_pow2_no_overflow(o);
    lemma_u64_shl_is_mul(1, width);
    let ones = low_bits(width);
    assert(ones == (1u64 << width) - 1) by (bit_vector)
        requires
            width < 64,
            ones == low_bits(width),
    ;
    assert(ones == low_bits_mask(w) as u64);
    lemma_u64_low_bits_mask_is_mod(v, w);
    lemma_u64_low_bits_mask_is_mod(word >> offset, w);
    lemma_u64_shr_is_div(word, offset);
    if fits(offset, width) {
        let cut = mask(v, width);
        assert(cut * pow2(o) <= u64::MAX) by {
            lemma_pow2_adds(w, o);
            lemma2_to64_rest();
            if w + o < 64 {
                lemma_pow2_strictly_increases((w + o) as nat, 64);
            }
            assert(cut * pow2(o) <= (pow2(w) - 1) * pow2(o)) by (nonlinear_arith)
                requires
                    cut <= pow2(w) - 1,
                    pow2(o) > 0,
            ;
            assert((pow2(w) - 1) * pow2(o) == pow2(w) * pow2(o) - pow2(o)) by (nonlinear_arith);
        }
        lemma_u64_shl_is_mul(cut, offset);
    }
}

/// Reading back the field that was just written gives the written value,
/// cut down to the field's width.
pub proof fn lemma_insert_then_extract(word: u64, v: u64, offset: u64, width: u64)
    by (bit_vector)
    requires
        fits(offset, width),
    ensures
        extract(insert(word, v, offset, width), offset, width) == mask(v, width),
{
}

/// Writing one field leaves every field that shares no bit with it as it was.
pub proof fn lemma_insert_keeps_other_fields(
    word: u64,
    v: u64,
    offset: u64,
    width: u64,
    other_offset: u64,
    other_width: u64,
)
    by (bit_vector)
    requires
        fits(offset, width),
        fits(other_offset, other_width),
        disjoint(offset, width, other_offset, other_width),
    ensures
        extract(insert(word, v, offset, width), other_offset, other_width) == extract(
            word,
            other_offset,
            other_width,
        ),
{
}

/// Writing the value that a field already holds changes nothing.
pub proof fn lemma_extract_then_insert(word: u64, offset: u64, width: u64)
    by (bit_vector)
    requires
        fits(offset, width),
    ensures
        insert(word, extract(word, offset, width), offset, width) == word,
{
}

/// How fields read back from a word that was put together with `|` out of
/// placed values: the read distributes over `|`, a placed value reads back
/// cut to its width at its own position and as zero at any position that
/// shares no bit with it.
pub proof fn lemma_placed_fields()
    by (bit_vector)
    ensures
        forall|a: u64, b: u64, offset: u64, width: u64|
            #[trigger] spec_extract(a | b, offset, width) == spec_extract(a, offset, width)
                | spec_extract(b, offset, width),
        forall|v: u64, offset: u64, width: u64|
            fits(offset, width) ==> #[trigger] spec_extract(
                spec_place(v, offset, width),
                offset,
                width,
            ) == spec_mask(v, width),
        forall|v: u64, offset: u64, width: u64, other_offset: u64, other_width: u64|
            fits(offset, width) && fits(other_offset, other_width) && disjoint(
                offset,
                width,
                other_offset,
                other_width,
            ) ==> #[trigger] spec_extract(
                spec_place(v, offset, width),
                other_offset,
                other_width,
            ) == 0,
        forall|a: u64| #[trigger] (a | 0) == a,
        forall|a: u64| #[trigger] (0 | a) == a,
{
}

/// How fields read back from a word after one of them was written: the
/// written field holds the new value, cut to its width, and every field that
/// shares no bit with it holds what it held before.
pub proof fn lemma_written_fields()
    by (bit_vector)
    ensures
        forall|word: u64, v: u64, offset: u64, width: u64|
            fits(offset, width) ==> #[trigger] spec_extract(
                spec_insert(word, v, offset, width),
                offset,
                width,
            ) == spec_mask(v, width),
        forall|word: u64, v: u64, offset: u64, width: u64, other_offset: u64, other_width: u64|
            fits(offset, width) && fits(other_offset, other_width) && disjoint(
                offset,
                width,
                other_offset,
                other_width,
            ) ==> #[trigger] spec_extract(
                spec_insert(word, v, offset, width),
                other_offset,
                other_width,
            ) == spec_extract(word, other_offset, other_width),
        forall|offset: u64, width: u64| #[trigger] spec_extract(0, offset, width) == 0,
{
}

/// A field never holds more than its width allows, and a value within the
/// width passes the cut unchanged.
pub proof fn lemma_field_bounds()
    by (bit_vector)
    ensures
        forall|word: u64, offset: u64, width: u64| #[trigger]
            spec_extract(word, offset, width) <= low_bits(width),
        forall|v: u64, width: u64| #[trigger] spec_mask(v, width) <= low_bits(width),
        forall|v: u64, width: u64| v <= low_bits(width) ==> #[trigger] spec_mask(v, width) == v,
{
}

/// The masks of the widths that the register layouts use.
pub proof fn lemma_low_bits_values()
    by (bit_vector)
    ensures
        low_bits(0) == 0,
        low_bits(1) == 0x1,
        low_bits(2) == 0x3,
        low_bits(3) == 0x7,
        low_bits(4) == 0xF,
        low_bits(5) == 0x1F,
        low_bits(6) == 0x3F,
        low_bits(7) == 0x7F,
        low_bits(8) == 0xFF,
        low_bits(9) == 0x1FF,
        low_bits(10) == 0x3FF,
        low_bits(11) == 0x7FF,
        low_bits(12) == 0xFFF,
        low_bits(14) == 0x3FFF,
        low_bits(15) == 0x7FFF,
        low_bits(16) == 0xFFFF,
        low_bits(24) == 0xFF_FFFF,
        low_bits(32) == 0xFFFF_FFFF,
        low_bits(64) == 0xFFFF_FFFF_FFFF_FFFF,
{
}

} // verus!
