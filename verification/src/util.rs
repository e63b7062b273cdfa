//! Bit-field access within a 32-bit word and little-endian assembly of
//! halfwords and words from bytes.

use vstd::arithmetic::power2::{lemma2_to64, lemma_pow2_pos, pow2};
use vstd::bits::{
    lemma_u32_low_bits_mask_is_mod,
    lemma_u32_pow2_no_overflow,
    lemma_u32_shl_is_mul,
    lemma_u32_shr_is_div,
    low_bits_mask,
};
use vstd::prelude::*;

verus! {

/// The word whose `width` low bits are set and no others.
pub open spec fn low_mask(width: u8) -> u32 {
    if width >= 32 {
        0xffff_ffffu32
    } else {
        ((1u32 << width) - 1) as u32
    }
}

/// Bit `index` of `word`.
pub open spec fn bit_of(word: u32, index: u8) -> bool {
    (word >> index) & 1 == 1
}

/// The `width`-bit field of `word` that starts at bit `offset`, right-justified.
pub open spec fn field_of(word: u32, offset: u8, width: u8) -> u32 {
    if offset >= 32 {
        0
    } else {
        (word >> offset) & low_mask(width)
    }
}

/// `word` with its `width`-bit field at `offset` replaced by the low `width`
/// bits of `value`.
pub open spec fn with_field(word: u32, offset: u8, width: u8, value: u32) -> u32 {
    if offset >= 32 {
        word
    } else {
        (word & !(low_mask(width) << offset)) | ((value & low_mask(width)) << offset)
    }
}

/// The halfword whose low byte is `bytes[address]` and whose high byte is
/// `bytes[address + 1]`.
pub open spec fn le_halfword(bytes: Seq<u8>, address: int) -> int {
    bytes[address] + 0x100 * bytes[address + 1]
}

/// The word made of the four bytes from `bytes[address]` on, least
/// significant byte first.
pub open spec fn le_word(bytes: Seq<u8>, address: int) -> int {
    bytes[address] + 0x100 * bytes[address + 1] + 0x1_0000 * bytes[address + 2] + 0x100_0000
        * bytes[address + 3]
}

/// Computes `low_mask`.
fn mask_of(num: u8) -> (mask: u32)
    requires
        num <= 32,
    ensures
        mask == low_mask(num),
{
    if num >= 32 {
        0xffff_ffffu32
    } else {
        assert((1u32 << num) >= 1) by (bit_vector)
            requires
                num < 32,
        ;
        (1u32 << num) - 1
    }
}

/// Replaces the `num`-bit field of `input` at `offset` by the low `num` bits
/// of `bits`; every other bit of `input` is kept.
pub fn set_bits(input: u32, offset: u8, num: u8, bits: u32) -> (output: u32)
    requires
        num <= 32,
        offset + num <= 32,
    ensures
        output == with_field(input, offset, num, bits),
{
    if offset >= 32 {
        return input;
    }
    let mask: u32 = mask_of(num);
    let new_val: u32 = (bits & mask) << offset;
    (input & !(mask << offset)) | new_val
}

/// Extracts the `num`-bit field of `input` at `offset`, right-justified.
pub fn get_bits(input: u32, offset: u8, num: u8) -> (output: u32)
    requires
        num <= 32,
        offset + num <= 32,
    ensures
        output == field_of(input, offset, num),
{
    if offset >= 32 {
        return 0;
    }
    let mask: u32 = mask_of(num);
    (input >> offset) & mask
}

/// Reads the little-endian halfword at `address`. The address is used as it
/// is, as an index into `byte_array`: to align it is the caller's part.
pub fn get_halfword(byte_array: &[u8], address: usize) -> (halfword: u16)
    requires
        address + 1 < byte_array@.len(),
    ensures
        halfword == le_halfword(byte_array@, address as int),
{
    let b0: u8 = byte_array[address];
    let b1: u8 = byte_array[address + 1];
    assert((((b1 as u16) << 8) | (b0 as u16)) == b0 + 0x100 * b1) by (bit_vector);
    ((b1 as u16) << 8) | (b0 as u16)
}

/// Reads the little-endian word at `address`. The address is used as it is,
/// as an index into `byte_array`: to align it is the caller's part.
pub fn get_word(byte_array: &[u8], address: usize) -> (word: u32)
    requires
        address + 3 < byte_array@.len(),
    ensures
        word == le_word(byte_array@, address as int),
{
    let b0: u8 = byte_array[address];
    let b1: u8 = byte_array[address + 1];
    let b2: u8 = byte_array[address + 2];
    let b3: u8 = byte_array[address + 3];
    assert((((b3 as u32) << 24) | ((b2 as u32) << 16) | ((b1 as u32) << 8) | (b0 as u32)) == b0
        + 0x100 * b1 + 0x1_0000 * b2 + 0x100_0000 * b3) by (bit_vector);
    ((b3 as u32) << 24) | ((b2 as u32) << 16) | ((b1 as u32) << 8) | (b0 as u32)
}

/// Reading a field back after writing it gives the low `width` bits of the
/// value written.
pub proof fn lemma_get_after_set(x: u32, offset: u8, width: u8, value: u32)
    requires
        width <= 32,
        offset + width <= 32,
    ensures
        field_of(with_field(x, offset, width, value), offset, width) == value & low_mask(width),
{
    if offset < 32 {
        let m = low_mask(width);
        assert((((x & !(m << offset)) | ((value & m) << offset)) >> offset) & m == value & m)
            by (bit_vector)
            requires
                offset < 32,
                width <= 32,
                offset + width <= 32,
                m == (if width >= 32 {
                    0xffff_ffffu32
                } else {
                    ((1u32 << width) - 1) as u32
                }),
        ;
    } else {
        assert(value & low_mask(0) == 0u32) by (bit_vector);
    }
}

/// Writing a field changes no bit outside it.
pub proof fn lemma_set_keeps_other_bits(x: u32, offset: u8, width: u8, value: u32, index: u8)
    requires
        width <= 32,
        offset + width <= 32,
        index < 32,
        index < offset || index >= offset + width,
    ensures
        bit_of(with_field(x, offset, width, value), index) == bit_of(x, index),
{
    if offset < 32 {
        let m = low_mask(width);
        assert(((((x & !(m << offset)) | ((value & m) << offset)) >> index) & 1) == ((x >> index)
            & 1)) by (bit_vector)
            requires
                offset < 32,
                width <= 32,
                offset + width <= 32,
                index < 32,
                index < offset || index >= offset + width,
                m == (if width >= 32 {
                    0xffff_ffffu32
                } else {
                    ((1u32 << width) - 1) as u32
                }),
        ;
    }
}

/// Writing a field changes no field that lies wholly below or wholly above
/// it.
pub proof fn lemma_set_keeps_other_fields(
    x: u32,
    offset: u8,
    width: u8,
    value: u32,
    other_offset: u8,
    other_width: u8,
)
    requires
        offset + width <= 32,
        other_offset + other_width <= 32,
        other_offset + other_width <= offset || offset + width <= other_offset,
    ensures
        field_of(with_field(x, offset, width, value), other_offset, other_width) == field_of(
            x,
            other_offset,
            other_width,
        ),
{
    if offset < 32 && other_offset < 32 {
        let m = low_mask(width);
        let n = low_mask(other_width);
        assert((((x & !(m << offset)) | ((value & m) << offset)) >> other_offset) & n == (x
            >> other_offset) & n) by (bit_vector)
            requires
                offset < 32,
                other_offset < 32,
                offset + width <= 32,
                other_offset + other_width <= 32,
                other_offset + other_width <= offset || offset + width <= other_offset,
                m == (if width >= 32 {
                    0xffff_ffffu32
                } else {
                    ((1u32 << width) - 1) as u32
                }),
                n == (if other_width >= 32 {
                    0xffff_ffffu32
                } else {
                    ((1u32 << other_width) - 1) as u32
                }),
        ;
    }
}

/// A field read as a number: the word divided by two to the power of the
/// offset, modulo two to the power of the width.
pub proof fn lemma_field_is_div_mod(word: u32, offset: u8, width: u8)
    requires
        width <= 32,
        offset + width <= 32,
    ensures
        field_of(word, offset, width) == (word as nat / pow2(offset as nat)) % pow2(width as nat),
{
    lemma2_to64();
    lemma_pow2_pos(offset as nat);
    lemma_pow2_pos(width as nat);
    if offset >= 32 {
        assert(pow2(32) == 0x1_0000_0000 && pow2(0) == 1);
        assert(word as nat / 0x1_0000_0000 == 0);
    } else {
        let shifted: u32 = word >> offset;
        assert(shifted == word >> (offset as u32)) by (bit_vector)
            requires
                shifted == word >> offset,
        ;
        lemma_u32_shr_is_div(word, offset as u32);
        assert(shifted == word as nat / pow2(offset as nat));
        if width >= 32 {
            assert(pow2(32) == 0x1_0000_0000);
            assert(shifted & 0xffff_ffffu32 == shifted) by (bit_vector);
            assert(shifted as nat % 0x1_0000_0000 == shifted as nat);
        } else {
            let one: u32 = 1u32 << width;
            assert(one == 1u32 << (width as u32)) by (bit_vector)
                requires
                    one == 1u32 << width,
            ;
            lemma_u32_pow2_no_overflow(width as nat);
            lemma_u32_shl_is_mul(1, width as u32);
            assert(low_mask(width) == low_bits_mask(width as nat));
            lemma_u32_low_bits_mask_is_mod(shifted, width as nat);
            assert(shifted & low_mask(width) == shifted % (pow2(width as nat) as u32));
        }
    }
}

} // verus!
