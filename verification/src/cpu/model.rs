//! The register file as a value, the layout of the status byte, and the small
//! arithmetic of bytes, words and pages that everything else is stated in.

use vstd::prelude::*;

verus! {

/// Bit position of the Carry flag in the status byte.
pub const CARRY: u8 = 0;

/// Bit position of the Zero flag.
pub const ZERO: u8 = 1;

/// Bit position of the InterruptDisable flag.
pub const INTERRUPT_DISABLE: u8 = 2;

/// Bit position of the Decimal flag.
pub const DECIMAL: u8 = 3;

/// Bit position of the Break flag.
pub const BREAK: u8 = 4;

/// Bit position of the flag that has no use; it is pushed as 1.
pub const UNUSED: u8 = 5;

/// Bit position of the Overflow flag.
pub const OVERFLOW: u8 = 6;

/// Bit position of the Negative flag.
pub const NEGATIVE: u8 = 7;

/// The stack lives in the page that starts here.
pub const STACK_PAGE: u16 = 0x0100;

/// Where the program counter is loaded from on reset (low byte first).
pub const RESET_VECTOR: u16 = 0xFFFC;

/// Where the program counter is loaded from on a break (low byte first).
pub const IRQ_VECTOR: u16 = 0xFFFE;

/// A cycle counter can be handed on while it is no greater than this: no
/// instruction adds as much as the room that is left.
pub const TICK_ROOM: u32 = 0xFFFF_FF00;

/// The registers of the processor.
#[derive(Clone, Copy)]
pub struct Registers {
    pub pc: u16,
    pub sp: u8,
    pub a: u8,
    pub x: u8,
    pub y: u8,
    pub status: u8,
}

/// Bit `pos` of `value` is set.
pub open spec fn bit(value: u8, pos: u8) -> bool {
    value & (1u8 << pos) != 0
}

/// `value` with bit `pos` set to `on` and every other bit kept.
pub open spec fn with_bit(value: u8, pos: u8, on: bool) -> u8 {
    if on {
        value | (1u8 << pos)
    } else {
        value & !(1u8 << pos)
    }
}

/// A byte seen as a signed number is negative.
pub open spec fn negative(value: u8) -> bool {
    value >= 0x80
}

/// `status` with Zero and Negative taken from `value`.
pub open spec fn zn(status: u8, value: u8) -> u8 {
    with_bit(with_bit(status, ZERO, value == 0), NEGATIVE, negative(value))
}

/// The integer `i` reduced modulo 256 to a byte. Sums and differences of registers
/// and operands leave the range of a byte by less than 256, so one step brings
/// them back; `lemma_wrap` says that this is the remainder.
pub open spec fn wrap8(i: int) -> u8 {
    if 0 <= i < 256 {
        i as u8
    } else if 256 <= i < 512 {
        (i - 256) as u8
    } else if -256 <= i < 0 {
        (i + 256) as u8
    } else {
        (i % 256) as u8
    }
}

/// The integer `i` reduced modulo 65536 to a 16-bit word.
pub open spec fn wrap16(i: int) -> u16 {
    if 0 <= i < 65536 {
        i as u16
    } else if 65536 <= i < 131072 {
        (i - 65536) as u16
    } else if -65536 <= i < 0 {
        (i + 65536) as u16
    } else {
        (i % 65536) as u16
    }
}

/// `wrap8` and `wrap16` are the remainders modulo 256 and 65536.
pub proof fn lemma_wrap(i: int)
    ensures
        wrap8(i) == i % 256,
        wrap16(i) == i % 65536,
{
}

/// The word with low byte `lo` and high byte `hi`.
pub open spec fn word(lo: u8, hi: u8) -> u16 {
    (hi * 256 + lo) as u16
}

/// The low byte of a word.
pub open spec fn low(w: u16) -> u8 {
    (w % 256) as u8
}

/// The high byte of a word.
pub open spec fn high(w: u16) -> u8 {
    (w / 256) as u8
}

/// Two addresses lie in different 256-byte pages.
pub open spec fn crosses(from: u16, to: u16) -> bool {
    from / 256 != to / 256
}

/// A byte read as a signed offset, -128 to 127.
pub open spec fn signed(offset: u8) -> int {
    if offset < 0x80 {
        offset as int
    } else {
        offset - 256
    }
}

/// The address of the stack slot that `sp` points at.
pub open spec fn stack_addr(sp: u8) -> u16 {
    (STACK_PAGE + sp) as u16
}

impl Registers {
    /// The registers with the program counter moved on by `n`, modulo 65536.
    pub open spec fn advance(self, n: int) -> Registers {
        Registers { pc: wrap16(self.pc + n), ..self }
    }

    /// The registers with the program counter at `pc`.
    pub open spec fn with_pc(self, pc: u16) -> Registers {
        Registers { pc, ..self }
    }

    /// The registers with the status byte `status`.
    pub open spec fn with_status(self, status: u8) -> Registers {
        Registers { status, ..self }
    }

    /// The registers with the flag at bit `pos` set to `on`.
    pub open spec fn with_flag(self, pos: u8, on: bool) -> Registers {
        Registers { status: with_bit(self.status, pos, on), ..self }
    }

    /// The flag at bit `pos` is set.
    pub open spec fn flag(self, pos: u8) -> bool {
        bit(self.status, pos)
    }

    /// The registers as `reset` leaves them, before the program counter is loaded.
    pub open spec fn initial(pc: u16) -> Registers {
        Registers { pc, sp: 0xFD, a: 0, x: 0, y: 0, status: 0x24 }
    }
}

/// Setting a bit makes that bit read as set to, and leaves every other bit as it
/// was.
pub proof fn lemma_with_bit(value: u8, pos: u8, on: bool, other: u8)
    by (bit_vector)
    requires
        pos < 8,
        other < 8,
    ensures
        bit(with_bit(value, pos, on), other) == (if other == pos {
            on
        } else {
            bit(value, other)
        }),
{
}

/// Masks with a single bit test that bit; bit 7 of a byte is its sign.
pub proof fn lemma_masks(value: u8)
    by (bit_vector)
    ensures
        bit(value, NEGATIVE) == negative(value),
        (value & 0x80 != 0) == negative(value),
        (value & 0x80 > 0) == negative(value),
        (value & 0x40 != 0) == bit(value, OVERFLOW),
        (value & 0x01 != 0) == bit(value, CARRY),
        (value & 0x01 != 0) == (value % 2 == 1),
{
}

/// The sign tests that add and subtract make with exclusive-or say whether the
/// signs of the operands agree and whether the result left the sign of the first.
pub proof fn lemma_sign_tests(a: u8, value: u8, result: u8)
    by (bit_vector)
    ensures
        ((!(a ^ value) & (a ^ result) & 0x80) != 0) == (negative(a) == negative(value) && negative(
            result,
        ) != negative(a)),
        (((a ^ value) & (a ^ result) & 0x80) != 0) == (negative(a) != negative(value) && negative(
            result,
        ) != negative(a)),
{
}

/// Two addresses lie in different pages exactly when their high bytes differ.
pub proof fn lemma_page_mask(from: u16, to: u16)
    by (bit_vector)
    ensures
        ((from & 0xFF00) != (to & 0xFF00)) == crosses(from, to),
        (from & 0x00FF) == from % 256,
        (from & 0xFF00) == from - from % 256,
{
}

/// The reset value of the status byte has exactly Unused and InterruptDisable set.
pub proof fn lemma_reset_status(pos: u8)
    by (bit_vector)
    requires
        pos < 8,
    ensures
        bit(0x24, pos) == (pos == UNUSED || pos == INTERRUPT_DISABLE),
{
}

} // verus!
