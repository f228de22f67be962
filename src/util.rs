use vstd::prelude::*;

verus! {

/// `16` raised to `n`, for the four hex digits of an opcode.
pub open spec fn pow16(n: int) -> int
    decreases n,
{
    if n <= 0 {
        1
    } else {
        16 * pow16(n - 1)
    }
}

/// The `amount` hex digits of `opcode` that start `position` digits from the
/// most significant one, read as a number.
pub open spec fn hex_field(opcode: u16, position: int, amount: int) -> int {
    (opcode as int / pow16(4 - position - amount)) % pow16(amount)
}

/// Extracts `amount` hex digits of `opcode`, starting `position` digits from
/// the most significant one.
pub fn get_hex_digit(opcode: u16, position: u8, amount: u8) -> (r: u16)
    requires
        1 <= amount <= 3,
        position + amount <= 4,
    ensures
        r == hex_field(opcode, position as int, amount as int),
{
    let shift_amount: u16 = 4 * (4 - position as u16 - amount as u16);
    let width: u16 = 4 * amount as u16;
    assert(1u16 << width >= 1) by (bit_vector)
        requires width == 4 || width == 8 || width == 12;
    let field_mask: u16 = (1u16 << width) - 1;
    let r = (opcode >> shift_amount) & field_mask;
    proof {
        reveal_with_fuel(pow16, 4);
        if amount == 1 {
            assert(field_mask == 0xF) by (bit_vector)
                requires field_mask == (1u16 << 4u16) - 1;
            if shift_amount == 0 {
                assert((opcode >> 0u16) & 0xF == opcode % 16) by (bit_vector);
            } else if shift_amount == 4 {
                assert((opcode >> 4u16) & 0xF == (opcode / 16) % 16) by (bit_vector);
            } else if shift_amount == 8 {
                assert((opcode >> 8u16) & 0xF == (opcode / 256) % 16) by (bit_vector);
            } else {
                assert((opcode >> 12u16) & 0xF == (opcode / 4096) % 16) by (bit_vector);
            }
        } else if amount == 2 {
            assert(field_mask == 0xFF) by (bit_vector)
                requires field_mask == (1u16 << 8u16) - 1;
            if shift_amount == 0 {
                assert((opcode >> 0u16) & 0xFF == opcode % 256) by (bit_vector);
            } else if shift_amount == 4 {
                assert((opcode >> 4u16) & 0xFF == (opcode / 16) % 256) by (bit_vector);
            } else {
                assert((opcode >> 8u16) & 0xFF == (opcode / 256) % 256) by (bit_vector);
            }
        } else {
            assert(field_mask == 0xFFF) by (bit_vector)
                requires field_mask == (1u16 << 12u16) - 1;
            if shift_amount == 0 {
                assert((opcode >> 0u16) & 0xFFF == opcode % 4096) by (bit_vector);
            } else {
                assert((opcode >> 4u16) & 0xFFF == (opcode / 16) % 4096) by (bit_vector);
            }
        }
    }
    r
}

/// `get_hex_digit`, widened to an index.
pub fn get_hex_digit_usize(opcode: u16, position: u8, amount: u8) -> (r: usize)
    requires
        1 <= amount <= 3,
        position + amount <= 4,
    ensures
        r == hex_field(opcode, position as int, amount as int),
{
    get_hex_digit(opcode, position, amount) as usize
}

/// `get_hex_digit`, narrowed to a byte (its low eight bits).
pub fn get_hex_digit_u8(opcode: u16, position: u8, amount: u8) -> (r: u8)
    requires
        1 <= amount <= 3,
        position + amount <= 4,
    ensures
        r == hex_field(opcode, position as int, amount as int) % 256,
{
    let d = get_hex_digit(opcode, position, amount);
    (d % 256) as u8
}

} // verus!
