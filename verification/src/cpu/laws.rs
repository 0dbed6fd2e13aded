//! What holds of the instruction set whatever the registers and the memory hold.

use crate::bus::BusModel;
use crate::cpu::isa::{
    adc, bit_tested, compared, decode, operand_len, operand_word, pull_addr, pull_regs,
    push, push_addr, read_cost, reg, resolve, sbc, step, step_at, step_reg, Instruction, Mode,
    Reg, State,
};
use crate::cpu::model::{
    bit, crosses, lemma_with_bit, negative, with_bit, wrap16, wrap8, Registers, CARRY, NEGATIVE,
    OVERFLOW, STACK_PAGE, ZERO,
};
use vstd::prelude::*;

verus! {

/// A byte stepped `times` times by `delta`, each time modulo 256, as INC, INX
/// and INY (`delta` 1) and DEC, DEX and DEY (`delta` -1) step it.
pub open spec fn stepped(delta: int, value: u8, times: nat) -> u8
    decreases times,
{
    if times == 0 {
        value
    } else {
        stepped(delta, wrap8(value + delta), (times - 1) as nat)
    }
}

/// Stepping a byte up `times` times adds `times` modulo 256; stepping it down
/// subtracts `times` modulo 256.
pub proof fn law_stepped(value: u8, times: nat)
    ensures
        stepped(1, value, times) == (value + times) % 256,
        stepped(-1, value, times) == (value - times) % 256,
    decreases times,
{
    if times > 0 {
        law_stepped(wrap8(value + 1), (times - 1) as nat);
        law_stepped(wrap8(value - 1), (times - 1) as nat);
    }
}

/// Incrementing a byte 256 times returns it to where it was, and so does
/// decrementing it 256 times; as many decrements as increments undo them.
pub proof fn law_step_wraps_around(value: u8, times: nat)
    ensures
        stepped(1, value, 256) == value,
        stepped(-1, value, 256) == value,
        stepped(-1, stepped(1, value, 256), 256) == value,
        stepped(-1, stepped(1, value, times), times) == value,
{
    law_stepped(value, 256);
    law_stepped(value, times);
    law_stepped(stepped(1, value, times), times);
}

/// The increment and decrement instructions step their byte by one, modulo 256,
/// in a register and in memory alike, and leave Carry as it was.
pub proof fn law_step_instructions(delta: int, s: State, which: Reg, addr: u16)
    requires
        delta == 1 || delta == -1,
    ensures
        reg(step_reg(delta, s.regs, which), which) == stepped(delta, reg(s.regs, which), 1),
        step_reg(delta, s.regs, which).flag(CARRY) == s.regs.flag(CARRY),
        step_at(delta, s, addr).bus == s.bus.poked(addr, stepped(delta, s.bus.peek(addr), 1)),
        step_at(delta, s, addr).regs.flag(CARRY) == s.regs.flag(CARRY),
{
    reveal(step_reg);
    reveal(step_at);
    reveal_with_fuel(stepped, 2);
    let v = wrap8(reg(s.regs, which) + delta);
    lemma_with_bit(s.regs.status, ZERO, v == 0, CARRY);
    lemma_with_bit(
        with_bit(s.regs.status, ZERO, v == 0),
        NEGATIVE,
        negative(v),
        CARRY,
    );
    let m = wrap8(s.bus.peek(addr) + delta);
    lemma_with_bit(s.regs.status, ZERO, m == 0, CARRY);
    lemma_with_bit(
        with_bit(s.regs.status, ZERO, m == 0),
        NEGATIVE,
        negative(m),
        CARRY,
    );
}

/// Addition: the accumulator takes the sum modulo 256; Carry says that the sum
/// did not fit in a byte, Zero that the accumulator is zero, Negative that its
/// bit 7 is set; no other register changes. So 0xFF plus 1 gives 0 with Carry
/// and Zero set.
pub proof fn law_adc(r: Registers, value: u8)
    ensures
        adc(r, value).a == (r.a + value + (if r.flag(CARRY) {
            1int
        } else {
            0int
        })) % 256,
        adc(r, value).flag(CARRY) == (r.a + value + (if r.flag(CARRY) {
            1int
        } else {
            0int
        }) > 255),
        adc(r, value).flag(ZERO) == (adc(r, value).a == 0),
        adc(r, value).flag(NEGATIVE) == negative(adc(r, value).a),
        adc(r, value).flag(OVERFLOW) == (negative(r.a) == negative(value) && negative(
            adc(r, value).a,
        ) != negative(r.a)),
        adc(r, value).pc == r.pc,
        adc(r, value).sp == r.sp,
        adc(r, value).x == r.x,
        adc(r, value).y == r.y,
        r.a == 0xFF && value == 1 && !r.flag(CARRY) ==> adc(r, value).a == 0 && adc(
            r,
            value,
        ).flag(CARRY) && adc(r, value).flag(ZERO),
{
    reveal(adc);
    let sum = r.a + value + crate::cpu::isa::carry_in(r);
    let result = wrap8(sum);
    let overflow = negative(r.a) == negative(value) && negative(result) != negative(r.a);
    lemma_flags4(r.status, sum > 0xFF, result == 0, overflow, negative(result));
}

/// Subtraction: the accumulator takes the difference modulo 256, less one more
/// when Carry was clear; Carry says that no borrow was needed.
pub proof fn law_sbc(r: Registers, value: u8)
    ensures
        sbc(r, value).a == (r.a - value - (if r.flag(CARRY) {
            0int
        } else {
            1int
        })) % 256,
        sbc(r, value).flag(CARRY) == (r.a - value - (if r.flag(CARRY) {
            0int
        } else {
            1int
        }) >= 0),
        sbc(r, value).flag(ZERO) == (sbc(r, value).a == 0),
        sbc(r, value).flag(NEGATIVE) == negative(sbc(r, value).a),
        sbc(r, value).flag(OVERFLOW) == (negative(r.a) != negative(value) && negative(
            sbc(r, value).a,
        ) != negative(r.a)),
        sbc(r, value).pc == r.pc,
        sbc(r, value).sp == r.sp,
        sbc(r, value).x == r.x,
        sbc(r, value).y == r.y,
{
    reveal(sbc);
    let difference = r.a - value - (1 - crate::cpu::isa::carry_in(r));
    let result = wrap8(difference);
    let overflow = negative(r.a) != negative(value) && negative(result) != negative(r.a);
    lemma_flags4(r.status, difference >= 0, result == 0, overflow, negative(result));
}

/// Setting Carry, Zero, Overflow and Negative one after the other gives a status
/// in which each of them reads as it was set, and every other flag as before.
pub proof fn lemma_flags4(status: u8, c: bool, z: bool, v: bool, n: bool)
    ensures
        ({
            let after = with_bit(
                with_bit(with_bit(with_bit(status, CARRY, c), ZERO, z), OVERFLOW, v),
                NEGATIVE,
                n,
            );
            &&& bit(after, CARRY) == c
            &&& bit(after, ZERO) == z
            &&& bit(after, OVERFLOW) == v
            &&& bit(after, NEGATIVE) == n
            &&& forall|pos: u8|
                pos < 8 && pos != CARRY && pos != ZERO && pos != OVERFLOW && pos != NEGATIVE
                    ==> #[trigger] bit(after, pos) == bit(status, pos)
        }),
{
    let s1 = with_bit(status, CARRY, c);
    let s2 = with_bit(s1, ZERO, z);
    let s3 = with_bit(s2, OVERFLOW, v);
    let s4 = with_bit(s3, NEGATIVE, n);
    assert forall|pos: u8| pos < 8 implies #[trigger] bit(s4, pos) == (if pos == NEGATIVE {
        n
    } else if pos == OVERFLOW {
        v
    } else if pos == ZERO {
        z
    } else if pos == CARRY {
        c
    } else {
        bit(status, pos)
    }) by {
        lemma_with_bit(status, CARRY, c, pos);
        lemma_with_bit(s1, ZERO, z, pos);
        lemma_with_bit(s2, OVERFLOW, v, pos);
        lemma_with_bit(s3, NEGATIVE, n, pos);
    }
}

/// Setting three flags one after the other gives a status in which each of them
/// reads as it was set, and every other flag as before.
pub proof fn lemma_flags3(status: u8, p1: u8, v1: bool, p2: u8, v2: bool, p3: u8, v3: bool)
    requires
        p1 < 8,
        p2 < 8,
        p3 < 8,
        p1 != p2,
        p1 != p3,
        p2 != p3,
    ensures
        ({
            let after = with_bit(with_bit(with_bit(status, p1, v1), p2, v2), p3, v3);
            &&& bit(after, p1) == v1
            &&& bit(after, p2) == v2
            &&& bit(after, p3) == v3
            &&& forall|pos: u8|
                pos < 8 && pos != p1 && pos != p2 && pos != p3 ==> #[trigger] bit(after, pos)
                    == bit(status, pos)
        }),
{
    let s1 = with_bit(status, p1, v1);
    let s2 = with_bit(s1, p2, v2);
    let s3 = with_bit(s2, p3, v3);
    assert forall|pos: u8| pos < 8 implies #[trigger] bit(s3, pos) == (if pos == p3 {
        v3
    } else if pos == p2 {
        v2
    } else if pos == p1 {
        v1
    } else {
        bit(status, pos)
    }) by {
        lemma_with_bit(status, p1, v1, pos);
        lemma_with_bit(s1, p2, v2, pos);
        lemma_with_bit(s2, p3, v3, pos);
    }
}

/// The status after a comparison: Carry when the register is at least the
/// operand, Zero when they are equal, Negative from bit 7 of the difference;
/// every other flag as before.
pub proof fn law_compared(status: u8, left: u8, right: u8)
    ensures
        bit(compared(status, left, right), CARRY) == (left >= right),
        bit(compared(status, left, right), ZERO) == (left == right),
        bit(compared(status, left, right), NEGATIVE) == negative(wrap8(left - right)),
        forall|pos: u8|
            pos < 8 && pos != CARRY && pos != ZERO && pos != NEGATIVE ==> #[trigger] bit(
                compared(status, left, right),
                pos,
            ) == bit(status, pos),
{
    reveal(compared);
    lemma_flags3(
        status,
        CARRY,
        left >= right,
        ZERO,
        left == right,
        NEGATIVE,
        negative(wrap8(left - right)),
    );
}

/// A compare instruction changes nothing but the status and the program
/// counter: the compared register, the other registers, the stack pointer and
/// the memory stay as they were; the program counter moves past the
/// instruction; the status is that of the comparison of the register with the
/// operand.
pub proof fn law_compare_is_pure(r: Registers, bus: BusModel, bug: bool, which: Reg, mode: Mode)
    requires
        decode(bus.peek(r.pc)) == Some(Instruction::Compare(which, mode)),
    ensures
        step(r, bus, bug).bus == bus,
        step(r, bus, bug).regs.a == r.a,
        step(r, bus, bug).regs.x == r.x,
        step(r, bus, bug).regs.y == r.y,
        step(r, bus, bug).regs.sp == r.sp,
        step(r, bus, bug).regs.pc == wrap16(r.pc + 1 + operand_len(mode)),
        step(r, bus, bug).regs.status == compared(
            r.status,
            reg(r, which),
            bus.peek(resolve(mode, r.advance(1), bus).addr),
        ),
{
}

/// The status after a bit test: Zero when the accumulator and the operand have
/// no bit in common, Overflow and Negative as bits 6 and 7 of the operand; every
/// other flag as before.
pub proof fn law_bit_tested(status: u8, a: u8, value: u8)
    ensures
        bit(bit_tested(status, a, value), ZERO) == (a & value == 0),
        bit(bit_tested(status, a, value), OVERFLOW) == bit(value, 6),
        bit(bit_tested(status, a, value), NEGATIVE) == bit(value, 7),
        forall|pos: u8|
            pos < 8 && pos != ZERO && pos != OVERFLOW && pos != NEGATIVE ==> #[trigger] bit(
                bit_tested(status, a, value),
                pos,
            ) == bit(status, pos),
{
    reveal(bit_tested);
    lemma_flags3(
        status,
        ZERO,
        a & value == 0,
        OVERFLOW,
        bit(value, OVERFLOW),
        NEGATIVE,
        bit(value, NEGATIVE),
    );
}

/// A bit test changes nothing but the status and the program counter: the
/// accumulator, the other registers and the memory stay as they were.
pub proof fn law_bit_test_is_pure(r: Registers, bus: BusModel, bug: bool, mode: Mode)
    requires
        decode(bus.peek(r.pc)) == Some(Instruction::BitTest(mode)),
    ensures
        step(r, bus, bug).bus == bus,
        step(r, bus, bug).regs.a == r.a,
        step(r, bus, bug).regs.x == r.x,
        step(r, bus, bug).regs.y == r.y,
        step(r, bus, bug).regs.sp == r.sp,
        step(r, bus, bug).regs.pc == wrap16(r.pc + 1 + operand_len(mode)),
        step(r, bus, bug).regs.status == bit_tested(
            r.status,
            r.a,
            bus.peek(resolve(mode, r.advance(1), bus).addr),
        ),
{
}

/// What a program does to the stack: it pushes a byte, or it pulls one.
pub enum StackOp {
    Push(u8),
    Pull,
}

/// The address that a stack operation reads or writes.
pub open spec fn stack_access(r: Registers, op: StackOp) -> u16 {
    match op {
        StackOp::Push(_) => push_addr(r),
        StackOp::Pull => pull_addr(r),
    }
}

/// The state after a stack operation.
pub open spec fn stack_apply(s: State, op: StackOp) -> State {
    match op {
        StackOp::Push(value) => push(s, value),
        StackOp::Pull => State { regs: pull_regs(s.regs), bus: s.bus },
    }
}

/// The addresses that a sequence of stack operations reads and writes, in order.
pub open spec fn stack_accesses(s: State, ops: Seq<StackOp>) -> Seq<u16>
    decreases ops.len(),
{
    if ops.len() == 0 {
        Seq::empty()
    } else {
        seq![stack_access(s.regs, ops[0])] + stack_accesses(
            stack_apply(s, ops[0]),
            ops.drop_first(),
        )
    }
}

/// Whatever is pushed and pulled, and however often the stack pointer wraps,
/// every address read or written lies in the stack page, 0x0100 to 0x01FF.
pub proof fn law_stack_stays_in_page(s: State, ops: Seq<StackOp>)
    ensures
        stack_accesses(s, ops).len() == ops.len(),
        forall|i: int|
            0 <= i < ops.len() ==> STACK_PAGE <= #[trigger] stack_accesses(s, ops)[i] <= 0x01FF,
    decreases ops.len(),
{
    if ops.len() > 0 {
        law_stack_stays_in_page(stack_apply(s, ops[0]), ops.drop_first());
    }
}

/// A push writes where the stack pointer points and moves it down by one, a pull
/// moves it up by one and reads where it then points, both modulo 256; neither
/// changes another register.
pub proof fn law_stack_pointer(s: State, value: u8)
    ensures
        push(s, value).bus == s.bus.poked(push_addr(s.regs), value),
        push(s, value).regs == (Registers { sp: wrap8(s.regs.sp - 1), ..s.regs }),
        pull_regs(s.regs) == (Registers { sp: wrap8(s.regs.sp + 1), ..s.regs }),
        pull_addr(s.regs) == push_addr(pull_regs(s.regs)),
        pull_regs(push(s, value).regs) == s.regs,
{
    reveal(push);
    reveal(pull_regs);
}

/// Reading through the absolute,X or absolute,Y mode costs three cycles, and one
/// more exactly when the indexed address lies in another page than the base
/// address.
pub proof fn law_page_cross_cost(r: Registers, bus: BusModel)
    ensures
        resolve(Mode::AbsoluteX, r, bus).crossed == crosses(
            operand_word(r, bus),
            wrap16(operand_word(r, bus) + r.x),
        ),
        resolve(Mode::AbsoluteY, r, bus).crossed == crosses(
            operand_word(r, bus),
            wrap16(operand_word(r, bus) + r.y),
        ),
        read_cost(Mode::AbsoluteX, true) == read_cost(Mode::AbsoluteX, false) + 1,
        read_cost(Mode::AbsoluteY, true) == read_cost(Mode::AbsoluteY, false) + 1,
        read_cost(Mode::AbsoluteX, false) == 3,
        read_cost(Mode::AbsoluteY, false) == 3,
        operand_word(r, bus) == 0x10FF && r.x == 1 ==> resolve(Mode::AbsoluteX, r, bus).crossed,
        operand_word(r, bus) == 0x1000 && r.x == 1 ==> !resolve(Mode::AbsoluteX, r, bus).crossed,
{
    reveal(resolve);
    reveal(read_cost);
}

} // verus!
