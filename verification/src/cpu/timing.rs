//! How long a step takes: the M-cycles among the bus operations it performs.
//!
//! Every building block of an instruction appends to what has been done, so each
//! lemma here bounds how many ticks a block adds; the law at the end puts them
//! together for a whole step.
use vstd::prelude::*;
use crate::bus::{tick_count, lemma_tick_count_push, Bus, BusOp};
use crate::interrupts::Interrupt;
use super::{field_x, field_y, field_z, is_illegal, read8_spec, tick_ops, write8_ops, Condition, Cpu, Operand8};

verus! {

broadcast use lemma_tick_count_push;

/// The ticks that `done` gained to become `now`, between `low` and `high`.
pub open spec fn adds_ticks(done: Seq<BusOp>, now: Seq<BusOp>, low: nat, high: nat) -> bool {
    tick_count(done) + low <= tick_count(now) <= tick_count(done) + high
}

proof fn lemma_fetch_ticks<B: Bus>(start: B, c: Cpu, done: Seq<BusOp>)
    ensures
        tick_count(Cpu::fetch8_spec(start, c, done).1) == tick_count(done) + 1,
        tick_count(Cpu::fetch16_spec(start, c, done).1) == tick_count(done) + 2,
{
    let (c1, d1, lo) = Cpu::fetch8_spec(start, c, done);
    assert(tick_count(d1) == tick_count(done) + 1);
    assert(tick_count(Cpu::fetch8_spec(start, c1, d1).1) == tick_count(d1) + 1);
}

proof fn lemma_memory_ticks<B: Bus>(start: B, c: Cpu, done: Seq<BusOp>, address: u16, value: u8, operand: Operand8)
    ensures
        tick_count(read8_spec(start, done, address).1) == tick_count(done) + 1,
        tick_count(write8_ops(done, address, value)) == tick_count(done) + 1,
        adds_ticks(done, Cpu::read_operand_spec(start, c, done, operand).1, 0, 1),
        adds_ticks(done, Cpu::write_operand_spec(c, done, operand, value).1, 0, 1),
{
}

proof fn lemma_push_ticks(c: Cpu, done: Seq<BusOp>, value: u16)
    ensures
        tick_count(Cpu::push16_spec(c, done, value).1) == tick_count(done) + 2,
{
    let sp1 = super::dec16(c.regs.sp);
    let d1 = write8_ops(done, sp1, super::registers::high_byte(value));
    assert(tick_count(d1) == tick_count(done) + 1);
}

proof fn lemma_pop_ticks<B: Bus>(start: B, c: Cpu, done: Seq<BusOp>)
    ensures
        tick_count(Cpu::pop16_spec(start, c, done).1) == tick_count(done) + 2,
{
    let (lo, d1) = read8_spec(start, done, c.regs.sp);
    assert(tick_count(d1) == tick_count(done) + 1);
}

/// JP takes two or three M-cycles after the opcode, JR one or two, CALL two or five,
/// RET none to four.
proof fn lemma_branch_ticks<B: Bus>(start: B, c: Cpu, done: Seq<BusOp>, condition: Option<Condition>)
    ensures
        adds_ticks(done, Cpu::jump_spec(start, c, done, condition).1, 2, 3),
        adds_ticks(done, Cpu::jump_relative_spec(start, c, done, condition).1, 1, 2),
        adds_ticks(done, Cpu::call_spec(start, c, done, condition).1, 2, 5),
        adds_ticks(done, Cpu::ret_spec(start, c, done, condition).1, 0, 4),
{
    lemma_fetch_ticks(start, c, done);
    let (c1, d1, target) = Cpu::fetch16_spec(start, c, done);
    lemma_push_ticks(c1, tick_ops(d1), c1.regs.pc);
    let d0 = if condition is Some {
        tick_ops(done)
    } else {
        done
    };
    lemma_pop_ticks(start, c, d0);
}

proof fn lemma_block0_ticks<B: Bus>(start: B, c: Cpu, done: Seq<BusOp>, y: u8, z: u8)
    requires
        y < 8,
        z < 8,
    ensures
        adds_ticks(done, Cpu::block0_spec(start, c, done, y, z).1, 0, 4),
{
    lemma_fetch_ticks(start, c, done);
    lemma_branch_ticks(start, c, done, None);
    lemma_branch_ticks(start, c, done, Some(Condition::from_bits_spec((y - 4) as u8)));
    let (c1, d1, address) = Cpu::fetch16_spec(start, c, done);
    let d2 = write8_ops(d1, address, super::registers::low_byte(c1.regs.sp));
    assert(tick_count(d2) == tick_count(d1) + 1);
    let operand = Operand8::from_bits_spec(y);
    lemma_memory_ticks(start, c, done, 0, 0, operand);
    let (value, r1) = Cpu::read_operand_spec(start, c, done, operand);
    lemma_memory_ticks(start, c, r1, 0, 0, operand);
    let (f1, e1, v1) = Cpu::fetch8_spec(start, c, done);
    lemma_memory_ticks(start, f1, e1, 0, v1, operand);
    assert forall|v: u8| adds_ticks(r1, #[trigger] Cpu::write_operand_spec(c, r1, operand, v).1, 0, 1) by {
        lemma_memory_ticks(start, c, r1, 0, v, operand);
    }
    assert forall|v: u8| adds_ticks(e1, #[trigger] Cpu::write_operand_spec(f1, e1, operand, v).1, 0, 1) by {
        lemma_memory_ticks(start, f1, e1, 0, v, operand);
    }
}

proof fn lemma_cb_ticks<B: Bus>(start: B, c: Cpu, done: Seq<BusOp>, opcode: u8)
    ensures
        adds_ticks(done, Cpu::cb_spec(start, c, done, opcode).1, 0, 2),
{
    let operand = Operand8::from_bits_spec(opcode);
    lemma_memory_ticks(start, c, done, 0, 0, operand);
    let (value, d1) = Cpu::read_operand_spec(start, c, done, operand);
    assert forall|v: u8| adds_ticks(d1, #[trigger] Cpu::write_operand_spec(c, d1, operand, v).1, 0, 1) by {
        lemma_memory_ticks(start, c, d1, 0, v, operand);
    }
    assert(operand is MemHl || d1 == done);
    assert forall|v: u8| adds_ticks(done, #[trigger] Cpu::write_operand_spec(c, d1, operand, v).1, 0, 2) by {
        lemma_memory_ticks(start, c, d1, 0, v, operand);
    }
}

proof fn lemma_block3_ticks<B: Bus>(start: B, c: Cpu, done: Seq<BusOp>, y: u8, z: u8)
    requires
        y < 8,
        z < 8,
    ensures
        adds_ticks(done, Cpu::block3_spec(start, c, done, y, z).1, 0, 5),
{
    lemma_fetch_ticks(start, c, done);
    lemma_branch_ticks(start, c, done, None);
    lemma_branch_ticks(start, c, done, Some(Condition::from_bits_spec(y)));
    let (c1, d1, byte) = Cpu::fetch8_spec(start, c, done);
    assert(tick_count(read8_spec(start, d1, (0xFF00 + byte) as u16).1) == tick_count(d1) + 1);
    assert(tick_count(write8_ops(d1, (0xFF00 + byte) as u16, c1.regs.a)) == tick_count(d1) + 1);
    lemma_cb_ticks(start, c1, d1, byte);
    let (c2, d2, address) = Cpu::fetch16_spec(start, c, done);
    assert(tick_count(read8_spec(start, d2, address).1) == tick_count(d2) + 1);
    assert(tick_count(write8_ops(d2, address, c2.regs.a)) == tick_count(d2) + 1);
    lemma_pop_ticks(start, c, done);
    lemma_push_ticks(c, tick_ops(done), c.regs.get16_spec(super::reg16_af_spec(y / 2)));
    lemma_push_ticks(c, tick_ops(done), c.regs.pc);
    let (r1, e1) = Cpu::ret_spec(start, c, done, None);
    assert(adds_ticks(done, e1, 0, 4));
}

proof fn lemma_execute_ticks<B: Bus>(start: B, c: Cpu, done: Seq<BusOp>, opcode: u8)
    requires
        !is_illegal(opcode),
    ensures
        adds_ticks(done, Cpu::execute_spec(start, c, done, opcode).1, 0, 5),
{
    let y = field_y(opcode);
    let z = field_z(opcode);
    assert(y < 8 && z < 8) by (bit_vector)
        requires
            y == field_y(opcode),
            z == field_z(opcode),
    ;
    lemma_block0_ticks(start, c, done, y, z);
    lemma_block3_ticks(start, c, done, y, z);
    lemma_memory_ticks(start, c, done, 0, 0, Operand8::from_bits_spec(z));
    let (value, d1) = Cpu::read_operand_spec(start, c, done, Operand8::from_bits_spec(z));
    lemma_memory_ticks(start, c, d1, 0, value, Operand8::from_bits_spec(y));
}

proof fn lemma_dispatch_ticks(c: Cpu, done: Seq<BusOp>, interrupt: Interrupt)
    ensures
        tick_count(Cpu::dispatch_spec(c, done, interrupt).1) == tick_count(done) + 5,
{
    let c1 = Cpu { ime: false, ..c };
    let d1 = tick_ops(tick_ops(done.push(BusOp::Acknowledge(interrupt))));
    assert(tick_count(d1) == tick_count(done) + 2);
    lemma_push_ticks(c1, d1, c1.regs.pc);
}

/// Every step of the CPU takes at least one M-cycle and at most six: a halted or
/// stopped CPU idles for one, an interrupt dispatch takes five, and no instruction
/// takes fewer than one or more than six (a taken CALL).
pub proof fn lemma_a_step_takes_one_to_six_cycles<B: Bus>(start: B, c: Cpu)
    ensures
        1 <= tick_count(Cpu::step_spec(start, c).1) <= 6,
{
    reveal(Cpu::step_spec);
    let done = Seq::<BusOp>::empty();
    assert(tick_count(done) == 0);
    lemma_fetch_ticks(start, c, done);
    let (c2, d2, opcode) = Cpu::fetch8_spec(start, c, done);
    if !is_illegal(opcode) {
        lemma_execute_ticks(start, c2, d2, opcode);
    }
    let pending = start.pending_after(done);
    if pending is Some {
        lemma_dispatch_ticks(c, done, pending->0);
        lemma_dispatch_ticks(Cpu { state: super::State::Running, ..c }, done, pending->0);
    }
    assert(tick_count(tick_ops(done)) == 1);
}

} // verus!
