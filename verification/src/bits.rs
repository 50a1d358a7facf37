use vstd::prelude::*;

verus! {

/// The bit at `pos` of `value`, as 0 or 1.
pub open spec fn bit8(value: u8, pos: u8) -> u8 {
    (value >> pos) & 1
}

/// `value` with the bit at `pos` forced to `bit` (0 or 1).
pub open spec fn with_bit8(value: u8, pos: u8, bit: u8) -> u8 {
    if bit == 0 {
        value & !(1u8 << pos)
    } else {
        value | (1u8 << pos)
    }
}

/// The bit at `pos` of a 16-bit value, as 0 or 1.
pub open spec fn bit16(value: u16, pos: u16) -> u8 {
    ((value >> pos) & 1) as u8
}

/// Returns the bit at `bit_position` of `value`.
pub fn get_bit(value: u8, bit_position: u8) -> (bit: u8)
    requires
        bit_position < 8,
    ensures
        bit == bit8(value, bit_position),
        bit <= 1,
{
    let bit = (value >> bit_position) & 0x1;
    assert(bit <= 1) by (bit_vector)
        requires
            bit == (value >> bit_position) & 0x1,
    ;
    bit
}

/// Returns `value` with the bit at `bit_position` set to `bit_value`.
pub fn set_bit(value: u8, bit_position: u8, bit_value: u8) -> (res: u8)
    requires
        bit_position < 8,
        bit_value <= 1,
    ensures
        res == with_bit8(value, bit_position, bit_value),
        bit8(res, bit_position) == bit_value,
        forall|p: u8| p < 8 && p != bit_position ==> #[trigger] bit8(res, p) == bit8(value, p),
{
    let res = if bit_value == 0 {
        value & !(1u8 << bit_position)
    } else {
        value | (1u8 << bit_position)
    };
    proof {
        lemma_with_bit8(value, bit_position, bit_value);
    }
    res
}

/// Setting one bit fixes that bit and leaves the others as they were.
pub proof fn lemma_with_bit8(value: u8, pos: u8, bit: u8)
    requires
        pos < 8,
        bit <= 1,
    ensures
        bit8(with_bit8(value, pos, bit), pos) == bit,
        forall|p: u8| p < 8 && p != pos ==> #[trigger] bit8(with_bit8(value, pos, bit), p) == bit8(value, p),
{
    if bit == 0 {
        assert(((value & !(1u8 << pos)) >> pos) & 1 == 0) by (bit_vector)
            requires pos < 8;
        assert forall|p: u8| p < 8 && p != pos implies #[trigger] bit8(with_bit8(value, pos, bit), p) == bit8(value, p) by {
            assert(((value & !(1u8 << pos)) >> p) & 1 == (value >> p) & 1) by (bit_vector)
                requires pos < 8, p < 8, p != pos;
        }
    } else {
        assert(((value | (1u8 << pos)) >> pos) & 1 == 1) by (bit_vector)
            requires pos < 8;
        assert forall|p: u8| p < 8 && p != pos implies #[trigger] bit8(with_bit8(value, pos, bit), p) == bit8(value, p) by {
            assert(((value | (1u8 << pos)) >> p) & 1 == (value >> p) & 1) by (bit_vector)
                requires pos < 8, p < 8, p != pos;
        }
    }
}


/// What the bit operations used on a byte compute, in arithmetic terms.
pub proof fn lemma_byte(v: u8)
    by (bit_vector)
    ensures
        v & 1 == v % 2,
        v & 3 == v % 4,
        v & 7 == v % 8,
        v & 0xF == v % 16,
        v & 0xF <= 15,
        v & 0x1F == v % 32,
        v & 0x3F == v % 64,
        v & 0x7F == v % 128,
        v >> 1 == v / 2,
        v >> 2 == v / 4,
        v >> 4 == v / 16,
        v >> 7 == v / 128,
        v / 128 <= 1,
        v % 2 <= 1,
        (v & 0xF0) >> 4 == v / 16,
        (v & 0x70) >> 4 == (v / 16) % 8,
        (v & 0x60) >> 5 == (v / 32) % 4,
        (v >> 6) & 3 == v / 64,
        (((v >> 3) & 1) == 0) == ((v / 8) % 2 == 0),
        (((v >> 4) & 1) == 1) == ((v / 16) % 2 == 1),
        (((v >> 4) & 1) == 0) == ((v / 16) % 2 == 0),
        (((v >> 6) & 1) == 1) == ((v / 64) % 2 == 1),
        (((v >> 7) & 1) == 1) == (v >= 128),
        ((v & 8) == 0) == ((v / 8) % 2 == 0),
        ((v & 8) != 0) == ((v / 8) % 2 == 1),
        ((v & 0xF8) != 0) == (v >= 8),
        ((v & 0x80) == 0) == (v < 0x80),
        v | 0xFF == 0xFF,
        v | 0 == v,
        (v as u16) & 7 == (v % 8) as u16,
        (v as u16) & 0xF <= 15,
        (v as u16) << 8 == (v as u16) * 256,
        v & 0x38 == ((v / 8) % 8) * 8,
{
}

/// The signed reading of a byte.
pub proof fn lemma_signed_byte(v: u8)
    by (bit_vector)
    ensures
        (v as i8) as i16 as int == (if v < 128 { v as int } else { v - 256 }),
{
}

/// What the bit operations used on a 16-bit word compute, in arithmetic terms.
pub proof fn lemma_word(v: u16)
    ensures
        ((v & 0xFF00u16) >> 8u16) as u8 == (v / 256) as u8,
        (v & 0x00FFu16) as u8 == (v % 256) as u8,
        ((v & 0x700u16) >> 8u16) as u8 == ((v / 256) % 8) as u8,
        v & 0xFu16 <= 15,
        v & 0xFFFu16 <= 0xFFF,
        (v >> 8u16) as u8 == (v / 256) as u8,
{
    assert(((v & 0xFF00u16) >> 8u16) as u8 == (v / 256) as u8 && (v & 0x00FFu16) as u8 == (v % 256) as u8
        && ((v & 0x700u16) >> 8u16) as u8 == ((v / 256) % 8) as u8 && v & 0xFu16 <= 15 && v & 0xFFFu16 <= 0xFFF
        && (v >> 8u16) as u8 == (v / 256) as u8)
        by (bit_vector);
}

/// The word with high byte `high` and low byte `low`, and the VRAM DMA address forms.
pub proof fn lemma_bytes_to_word(high: u16, low: u16)
    by (bit_vector)
    requires
        high < 256,
        low < 256,
    ensures
        (high << 8) | low == (high * 256 + low) as u16,
        (high << 8) | (low & 0xF0) == (high * 256 + (low / 16) * 16) as u16,
        ((high & 0x1F) << 8) | (low & 0xF0) == ((high % 32) * 256 + (low / 16) * 16) as u16,
{
}

} // verus!
