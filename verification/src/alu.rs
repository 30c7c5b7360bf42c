//! The arithmetic of the register-to-register instructions.
//!
//! Each operation gives a result and a flag, both computed from the
//! operands as they were before the instruction.

use vstd::prelude::*;

verus! {

/// The sum modulo 256, and 1 if the sum did not fit in eight bits,
/// else 0.
pub open spec fn add_with_carry(dest: u8, source: u8) -> (u8, u8) {
    (
        ((dest + source) % 0x100) as u8,
        if dest + source > 0xFF {
            1u8
        } else {
            0u8
        },
    )
}

/// The difference modulo 256, and 1 if nothing had to be borrowed, else 0.
pub open spec fn subtract_with_borrow(minuend: u8, subtrahend: u8) -> (u8, u8) {
    (
        ((minuend - subtrahend) % 0x100) as u8,
        if minuend >= subtrahend {
            1u8
        } else {
            0u8
        },
    )
}

/// The value shifted left by one bit, modulo 256, and the bit shifted out.
pub open spec fn shift_left(dest: u8) -> (u8, u8) {
    (((dest * 2) % 0x100) as u8, dest / 0x80)
}

/// The value shifted right by one bit, and the bit shifted out.
pub open spec fn shift_right(dest: u8) -> (u8, u8) {
    (dest / 2, dest % 2)
}

/// Adds two registers.
pub fn sum(dest: u8, source: u8) -> (result: (u8, u8))
    ensures
        result == add_with_carry(dest, source),
{
    let z = dest.checked_add(source);
    if let Some(z) = z {
        (z, 0)
    } else {
        ((((dest as u16) + (source as u16)) - 0x100) as u8, 1)
    }
}

/// Subtracts one register from another.
pub fn difference(minuend: u8, subtrahend: u8) -> (result: (u8, u8))
    ensures
        result == subtract_with_borrow(minuend, subtrahend),
{
    let z = minuend.checked_sub(subtrahend);
    if let Some(z) = z {
        (z, 1)  // no borrow
    } else {
        (minuend.wrapping_sub(subtrahend), 0)  // borrow
    }
}

/// Shifts a register left by one bit.
pub fn left_shift(dest: u8) -> (result: (u8, u8))
    ensures
        result == shift_left(dest),
{
    let vf = (dest >> 7) & 1;
    let shifted = dest << 1;
    assert((dest >> 7) & 1 == dest / 0x80 && dest << 1 == (dest * 2) % 0x100) by (bit_vector);
    (shifted, vf)
}

/// Shifts a register right by one bit.
pub fn right_shift(dest: u8) -> (result: (u8, u8))
    ensures
        result == shift_right(dest),
{
    let vf = dest & 1;
    let shifted = dest >> 1;
    assert(dest & 1 == dest % 2 && dest >> 1 == dest / 2) by (bit_vector);
    (shifted, vf)
}

} // verus!
