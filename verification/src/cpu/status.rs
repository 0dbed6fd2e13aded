//! Updating the status byte: one flag at a time, and the groups of flags that the
//! instructions set together.

use crate::cpu::isa::compared;
use crate::cpu::model::{
    lemma_masks, negative, with_bit, zn, Registers, CARRY, NEGATIVE, OVERFLOW, ZERO,
};
use vstd::prelude::*;

verus! {

impl Registers {
    /// Sets the flag at bit `pos` to `v`.
    pub(crate) fn set_status(&mut self, v: bool, pos: u8)
        requires
            pos < 8,
        ensures
            *final(self) == old(self).with_flag(pos, v),
    {
        let mask: u8 = 1u8 << pos;
        self.status = if v {
            self.status | mask
        } else {
            self.status & !mask
        };
    }

    /// Zero and Negative from a value just loaded.
    pub(crate) fn ld_set_status(&mut self, value: u8)
        ensures
            *final(self) == old(self).with_status(zn(old(self).status, value)),
    {
        proof {
            lemma_masks(value);
        }
        self.set_status(value == 0, 1);
        self.set_status((value & 0b10000000) > 0, 7);
    }

    /// The flags after an addition whose result is in the accumulator.
    pub(crate) fn adc_set_status(&mut self, is_carry: bool, is_over: bool)
        ensures
            *final(self) == old(self).with_status(
                with_bit(
                    with_bit(
                        with_bit(
                            with_bit(old(self).status, CARRY, is_carry),
                            ZERO,
                            old(self).a == 0,
                        ),
                        OVERFLOW,
                        is_over,
                    ),
                    NEGATIVE,
                    negative(old(self).a),
                ),
            ),
    {
        proof {
            lemma_masks(self.a);
        }
        self.set_status(is_carry, 0);
        self.set_status(self.a == 0, 1);
        self.set_status(is_over, 6);
        self.set_status((self.a & 0b10000000) > 0, 7);
    }

    /// Zero and Negative from the accumulator.
    pub(crate) fn and_set_status(&mut self)
        ensures
            *final(self) == old(self).with_status(zn(old(self).status, old(self).a)),
    {
        self.ld_set_status(self.a);
    }

    /// The flags after a shift that made `value` and pushed out `old_bit`.
    pub(crate) fn asl_set_status(&mut self, value: u8, old_bit: bool)
        ensures
            *final(self) == old(self).with_status(
                with_bit(
                    with_bit(with_bit(old(self).status, CARRY, old_bit), ZERO, value == 0),
                    NEGATIVE,
                    negative(value),
                ),
            ),
    {
        proof {
            lemma_masks(value);
        }
        self.set_status(old_bit, 0);
        self.set_status(value == 0, 1);
        self.set_status((value & 0b10000000) > 0, 7);
    }

    /// The flags after comparing the accumulator with `value`.
    pub(crate) fn compare_set_status(&mut self, value: u8)
        ensures
            *final(self) == old(self).with_status(compared(old(self).status, old(self).a, value)),
    {
        proof {
            reveal(compared);
        }
        let out = self.a.wrapping_sub(value);
        proof {
            lemma_masks(out);
        }
        self.set_status(self.a >= value, 0);
        self.set_status(value == self.a, 1);
        self.set_status((out & 0b10000000) > 0, 7);
    }

    /// The flags after comparing X with `value`.
    pub(crate) fn cpx_set_status(&mut self, value: u8)
        ensures
            *final(self) == old(self).with_status(compared(old(self).status, old(self).x, value)),
    {
        proof {
            reveal(compared);
        }
        let out = self.x.wrapping_sub(value);
        proof {
            lemma_masks(out);
        }
        self.set_status(self.x >= value, 0);
        self.set_status(value == self.x, 1);
        self.set_status((out & 0b10000000) > 0, 7);
    }

    /// The flags after comparing Y with `value`.
    pub(crate) fn cpy_set_status(&mut self, value: u8)
        ensures
            *final(self) == old(self).with_status(compared(old(self).status, old(self).y, value)),
    {
        proof {
            reveal(compared);
        }
        let out = self.y.wrapping_sub(value);
        proof {
            lemma_masks(out);
        }
        self.set_status(self.y >= value, 0);
        self.set_status(value == self.y, 1);
        self.set_status((out & 0b10000000) > 0, 7);
    }

    /// Zero and Negative from a value just stepped up or down.
    pub(crate) fn dec_set_status(&mut self, value: u8)
        ensures
            *final(self) == old(self).with_status(zn(old(self).status, value)),
    {
        self.ld_set_status(value);
    }

    /// Zero and Negative from the result of a logical operation.
    pub(crate) fn eor_set_status(&mut self, value: u8)
        ensures
            *final(self) == old(self).with_status(zn(old(self).status, value)),
    {
        self.ld_set_status(value);
    }

    /// The flags after a rotate that made `value` and pushed out `old_bit`.
    pub(crate) fn rotate_set_status(&mut self, value: u8, old_bit: bool)
        ensures
            *final(self) == old(self).with_status(
                with_bit(
                    with_bit(with_bit(old(self).status, CARRY, old_bit), ZERO, value == 0),
                    NEGATIVE,
                    negative(value),
                ),
            ),
    {
        self.asl_set_status(value, old_bit);
    }

    /// The flags after a subtraction whose result is in the accumulator;
    /// `no_borrow` becomes Carry.
    pub(crate) fn sbc_set_status(&mut self, no_borrow: bool, is_over: bool)
        ensures
            *final(self) == old(self).with_status(
                with_bit(
                    with_bit(
                        with_bit(
                            with_bit(old(self).status, CARRY, no_borrow),
                            ZERO,
                            old(self).a == 0,
                        ),
                        OVERFLOW,
                        is_over,
                    ),
                    NEGATIVE,
                    negative(old(self).a),
                ),
            ),
    {
        self.adc_set_status(no_borrow, is_over);
    }
}

} // verus!
