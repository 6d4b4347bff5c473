//! What the CPU promises across instructions and interrupts, and what a few
//! instructions promise whatever their operands.
//!
//! The round-trip laws run [`Cpu::step_spec`] twice on a flat 64 KiB memory: the
//! second step starts from the memory the first one left, which is what
//! [`Cpu::step`] guarantees of any bus. The others hold on every bus.
use vstd::prelude::*;
use crate::bus::{tick_count, behaves_as, flat_read, flat_run, lemma_flat_memory_after, lemma_flat_run_push, Bus, BusOp, FlatMemory, FlatModel};
use super::registers::{high_byte, low_byte, pair, Reg16};
use super::{dec16, inc16, reg16_af_spec, Cpu, State};
use crate::interrupts::Interrupt;

verus! {

/// Memory after the given writes, each after a tick, and after an optional read.
proof fn lemma_ticks_keep_memory(m: FlatModel, ops: Seq<BusOp>)
    ensures
        flat_run(m, ops.push(BusOp::Tick)).memory == flat_run(m, ops).memory,
        flat_run(m, ops.push(BusOp::Tick)).interrupts == flat_run(m, ops).interrupts,
{
    lemma_flat_run_push(m, ops, BusOp::Tick);
}

proof fn lemma_reads_keep_memory(m: FlatModel, ops: Seq<BusOp>, address: u16)
    ensures
        flat_run(m, ops.push(BusOp::Read(address))) == flat_run(m, ops),
{
    lemma_flat_run_push(m, ops, BusOp::Read(address));
}

proof fn lemma_write_updates_memory(m: FlatModel, ops: Seq<BusOp>, address: u16, value: u8)
    requires
        flat_run(m, ops).memory.len() == 0x1_0000,
    ensures
        flat_run(m, ops.push(BusOp::Write(address, value))).memory == flat_run(m, ops).memory.update(
            address as int,
            value,
        ),
        flat_run(m, ops.push(BusOp::Write(address, value))).interrupts == flat_run(m, ops).interrupts,
{
    lemma_flat_run_push(m, ops, BusOp::Write(address, value));
}

/// The bus operations of `PUSH` from `pc` with the stack at `sp`: the opcode fetch,
/// one idle cycle, then the high byte and the low byte, each after a tick.
pub open spec fn push_ops(pc: u16, sp: u16, value: u16) -> Seq<BusOp> {
    seq![
        BusOp::Tick,
        BusOp::Read(pc),
        BusOp::Tick,
        BusOp::Tick,
        BusOp::Write(dec16(sp), high_byte(value)),
        BusOp::Tick,
        BusOp::Write(dec16(dec16(sp)), low_byte(value)),
    ]
}

/// What one step does to a running CPU, with IME off and no EI pending, at a legal
/// opcode: fetch it, then execute it.
proof fn lemma_step_executes<B: Bus>(bus: B, c: Cpu)
    requires
        c.state == State::Running,
        !c.ime,
        !c.ime_pending,
        !super::is_illegal(Cpu::next_opcode_spec(bus, c)),
    ensures
        ({
            let (c1, d1, opcode) = Cpu::fetch8_spec(bus, c, Seq::empty());
            let (c2, d2) = Cpu::execute_spec(bus, c1, d1, opcode);
            Cpu::step_spec(bus, c) == (c2, d2, true)
        }),
{
    reveal(Cpu::step_spec);
}

/// A step at `PUSH rr`.
proof fn lemma_push_step(bus: FlatMemory, c: Cpu, p: u8)
    requires
        p < 4,
        c.state == State::Running,
        !c.halt_bug,
        !c.ime,
        !c.ime_pending,
        flat_read(bus.model(), c.regs.pc) == 0xC5 + 16 * p,
    ensures
        Cpu::step_spec(bus, c) == (
            c.with_pc(inc16(c.regs.pc)).with_sp(dec16(dec16(c.regs.sp))),
            push_ops(c.regs.pc, c.regs.sp, c.regs.get16_spec(reg16_af_spec(p))),
            true,
        ),
{
    let m = bus.model();
    let e = Seq::<BusOp>::empty();
    lemma_ticks_keep_memory(m, e);
    assert(flat_run(m, e) == m);
    let op = (0xC5 + 16 * p) as u8;
    assert(Cpu::next_opcode_spec(bus, c) == op);
    assert(super::field_x(op) == 3 && super::field_z(op) == 5 && super::field_y(op) == 2 * p);
    assert(!super::is_illegal(op));
    lemma_step_executes(bus, c);
    let (c1, d1, opcode) = Cpu::fetch8_spec(bus, c, e);
    assert(opcode == op);
    assert(Cpu::execute_spec(bus, c1, d1, op) == Cpu::block3_spec(bus, c1, d1, (2 * p) as u8, 5));
    let value = c.regs.get16_spec(reg16_af_spec(p));
    assert(c1.regs.get16_spec(reg16_af_spec(p)) == value);
    assert(Cpu::block3_spec(bus, c1, d1, (2 * p) as u8, 5) == Cpu::push16_spec(c1, d1.push(BusOp::Tick), value));
    assert(Cpu::push16_spec(c1, d1.push(BusOp::Tick), value).1 =~= push_ops(c.regs.pc, c.regs.sp, value));
}

/// A step at `POP rr`: the low byte from SP, the high byte from SP+1.
proof fn lemma_pop_step(bus: FlatMemory, c: Cpu, q: u8)
    requires
        q < 4,
        c.state == State::Running,
        !c.halt_bug,
        !c.ime,
        !c.ime_pending,
        flat_read(bus.model(), c.regs.pc) == 0xC1 + 16 * q,
    ensures
        ({
            let c1 = c.with_pc(inc16(c.regs.pc)).with_sp(inc16(inc16(c.regs.sp)));
            let value = pair(
                flat_read(bus.model(), inc16(c.regs.sp)),
                flat_read(bus.model(), c.regs.sp),
            );
            Cpu::step_spec(bus, c).0 == c1.with_regs(c1.regs.set16_spec(reg16_af_spec(q), value))
                && Cpu::step_spec(bus, c).2
        }),
{
    let m = bus.model();
    let e = Seq::<BusOp>::empty();
    let pc = c.regs.pc;
    let sp = c.regs.sp;
    lemma_ticks_keep_memory(m, e);
    assert(flat_run(m, e) == m);
    let op = (0xC1 + 16 * q) as u8;
    assert(Cpu::next_opcode_spec(bus, c) == op);
    assert(super::field_x(op) == 3 && super::field_z(op) == 1 && super::field_y(op) == 2 * q);
    assert(!super::is_illegal(op));
    lemma_step_executes(bus, c);
    let (c1, d1, opcode) = Cpu::fetch8_spec(bus, c, e);
    assert(opcode == op);
    assert(Cpu::execute_spec(bus, c1, d1, op) == Cpu::block3_spec(bus, c1, d1, (2 * q) as u8, 1));
    let t1 = e.push(BusOp::Tick);
    let r1 = t1.push(BusOp::Read(pc));
    assert(d1 == r1);
    lemma_reads_keep_memory(m, t1, pc);
    let u1 = r1.push(BusOp::Tick);
    lemma_ticks_keep_memory(m, r1);
    let r2 = u1.push(BusOp::Read(sp));
    lemma_reads_keep_memory(m, u1, sp);
    let u2 = r2.push(BusOp::Tick);
    lemma_ticks_keep_memory(m, r2);
    assert(bus.read_after(u1, sp) == flat_read(m, sp));
    assert(bus.read_after(u2, inc16(sp)) == flat_read(m, inc16(sp)));
}

/// PUSH then POP gives back what was pushed, and leaves SP where it was.
///
/// `PUSH rr` at PC followed by `POP rr'` at PC+1, with IME off and no EI pending, on a
/// memory whose two stack bytes below SP are not the POP itself: the popped pair holds
/// the pushed value, except that POP AF cannot set the flag register's low nibble,
/// which always reads 0.
pub proof fn lemma_push_then_pop_round_trips(bus: FlatMemory, next: FlatMemory, c: Cpu, p: u8, q: u8)
    requires
        p < 4,
        q < 4,
        bus.memory@.len() == 0x1_0000,
        c.state == State::Running,
        !c.halt_bug,
        !c.ime,
        !c.ime_pending,
        flat_read(bus.model(), c.regs.pc) == 0xC5 + 16 * p,
        flat_read(bus.model(), inc16(c.regs.pc)) == 0xC1 + 16 * q,
        dec16(c.regs.sp) != inc16(c.regs.pc),
        dec16(dec16(c.regs.sp)) != inc16(c.regs.pc),
        next.model() == flat_run(bus.model(), Cpu::step_spec(bus, c).1),
    ensures
        ({
            let (c1, _, legal1) = Cpu::step_spec(bus, c);
            let (c2, _, legal2) = Cpu::step_spec(next, c1);
            let value = c.regs.get16_spec(reg16_af_spec(p));
            &&& legal1 && legal2
            &&& c2.regs.sp == c.regs.sp
            &&& c2.regs.pc == inc16(inc16(c.regs.pc))
            &&& c2.regs.get16_spec(reg16_af_spec(q)) == if q == 3 {
                pair(high_byte(value), low_byte(value) & 0xF0)
            } else {
                value
            }
        }),
{
    let m = bus.model();
    let pc = c.regs.pc;
    let sp = c.regs.sp;
    let value = c.regs.get16_spec(reg16_af_spec(p));
    lemma_push_step(bus, c, p);
    let (c1, ops1, legal1) = Cpu::step_spec(bus, c);
    let e = Seq::<BusOp>::empty();
    let t1 = e.push(BusOp::Tick);
    let r1 = t1.push(BusOp::Read(pc));
    let i1 = r1.push(BusOp::Tick);
    let t2 = i1.push(BusOp::Tick);
    let w1 = t2.push(BusOp::Write(dec16(sp), high_byte(value)));
    let t3 = w1.push(BusOp::Tick);
    let w2 = t3.push(BusOp::Write(dec16(dec16(sp)), low_byte(value)));
    assert(ops1 =~= w2);
    lemma_ticks_keep_memory(m, e);
    assert(flat_run(m, e) == m);
    lemma_reads_keep_memory(m, t1, pc);
    lemma_ticks_keep_memory(m, r1);
    lemma_ticks_keep_memory(m, i1);
    lemma_write_updates_memory(m, t2, dec16(sp), high_byte(value));
    lemma_ticks_keep_memory(m, w1);
    lemma_write_updates_memory(m, t3, dec16(dec16(sp)), low_byte(value));
    let m2 = next.model();
    assert(m2.memory == m.memory.update(dec16(sp) as int, high_byte(value)).update(
        dec16(dec16(sp)) as int,
        low_byte(value),
    ));
    assert(flat_read(m2, inc16(pc)) == 0xC1 + 16 * q);
    assert(flat_read(m2, dec16(dec16(sp))) == low_byte(value));
    assert(inc16(dec16(dec16(sp))) == dec16(sp));
    assert(flat_read(m2, dec16(sp)) == high_byte(value));
    lemma_pop_step(next, c1, q);
    assert(inc16(dec16(sp)) == sp);
    assert(pair(high_byte(value), low_byte(value)) == value);
    if q == 3 {
        super::registers::lemma_bits_of_from_bits(low_byte(value));
    }
}

/// A step at `CALL nn`: the target is read little-endian after the opcode, the
/// address of the next instruction is pushed, and PC moves to the target.
proof fn lemma_call_step(bus: FlatMemory, c: Cpu)
    requires
        c.state == State::Running,
        !c.halt_bug,
        !c.ime,
        !c.ime_pending,
        flat_read(bus.model(), c.regs.pc) == 0xCD,
    ensures
        ({
            let m = bus.model();
            let pc = c.regs.pc;
            let sp = c.regs.sp;
            let target = pair(flat_read(m, inc16(inc16(pc))), flat_read(m, inc16(pc)));
            let back = inc16(inc16(inc16(pc)));
            Cpu::step_spec(bus, c) == (
                c.with_pc(back).with_sp(dec16(dec16(sp))).with_pc(target),
                seq![
                    BusOp::Tick,
                    BusOp::Read(pc),
                    BusOp::Tick,
                    BusOp::Read(inc16(pc)),
                    BusOp::Tick,
                    BusOp::Read(inc16(inc16(pc))),
                    BusOp::Tick,
                    BusOp::Tick,
                    BusOp::Write(dec16(sp), high_byte(back)),
                    BusOp::Tick,
                    BusOp::Write(dec16(dec16(sp)), low_byte(back)),
                ],
                true,
            )
        }),
{
    let m = bus.model();
    let e = Seq::<BusOp>::empty();
    let pc = c.regs.pc;
    lemma_ticks_keep_memory(m, e);
    assert(flat_run(m, e) == m);
    assert(Cpu::next_opcode_spec(bus, c) == 0xCD);
    assert(!super::is_illegal(0xCD));
    lemma_step_executes(bus, c);
    let (c1, d1, opcode) = Cpu::fetch8_spec(bus, c, e);
    assert(Cpu::execute_spec(bus, c1, d1, 0xCD) == Cpu::block3_spec(bus, c1, d1, 1, 5));
    let t1 = e.push(BusOp::Tick);
    let r1 = t1.push(BusOp::Read(pc));
    lemma_reads_keep_memory(m, t1, pc);
    let u1 = r1.push(BusOp::Tick);
    lemma_ticks_keep_memory(m, r1);
    let r2 = u1.push(BusOp::Read(inc16(pc)));
    lemma_reads_keep_memory(m, u1, inc16(pc));
    let u2 = r2.push(BusOp::Tick);
    lemma_ticks_keep_memory(m, r2);
    assert(bus.read_after(u1, inc16(pc)) == flat_read(m, inc16(pc)));
    assert(bus.read_after(u2, inc16(inc16(pc))) == flat_read(m, inc16(inc16(pc))));
    let (c2, d2, target) = Cpu::fetch16_spec(bus, c1, d1);
    assert(target == pair(flat_read(m, inc16(inc16(pc))), flat_read(m, inc16(pc))));
    assert(super::taken_spec(None, c2.regs.f));
}

/// A step at `RET`: PC is popped, low byte first.
proof fn lemma_ret_step(bus: FlatMemory, c: Cpu)
    requires
        c.state == State::Running,
        !c.halt_bug,
        !c.ime,
        !c.ime_pending,
        flat_read(bus.model(), c.regs.pc) == 0xC9,
    ensures
        Cpu::step_spec(bus, c).2,
        Cpu::step_spec(bus, c).0 == c.with_pc(inc16(c.regs.pc)).with_sp(inc16(inc16(c.regs.sp))).with_pc(
            pair(flat_read(bus.model(), inc16(c.regs.sp)), flat_read(bus.model(), c.regs.sp)),
        ),
{
    let m = bus.model();
    let e = Seq::<BusOp>::empty();
    let pc = c.regs.pc;
    let sp = c.regs.sp;
    lemma_ticks_keep_memory(m, e);
    assert(flat_run(m, e) == m);
    assert(Cpu::next_opcode_spec(bus, c) == 0xC9);
    assert(!super::is_illegal(0xC9));
    lemma_step_executes(bus, c);
    let (c1, d1, opcode) = Cpu::fetch8_spec(bus, c, e);
    assert(Cpu::execute_spec(bus, c1, d1, 0xC9) == Cpu::block3_spec(bus, c1, d1, 1, 1));
    assert(super::taken_spec(None, c1.regs.f));
    let t1 = e.push(BusOp::Tick);
    let r1 = t1.push(BusOp::Read(pc));
    lemma_reads_keep_memory(m, t1, pc);
    let u1 = r1.push(BusOp::Tick);
    lemma_ticks_keep_memory(m, r1);
    let r2 = u1.push(BusOp::Read(sp));
    lemma_reads_keep_memory(m, u1, sp);
    let u2 = r2.push(BusOp::Tick);
    lemma_ticks_keep_memory(m, r2);
    assert(bus.read_after(u1, sp) == flat_read(m, sp));
    assert(bus.read_after(u2, inc16(sp)) == flat_read(m, inc16(sp)));
}

/// CALL then RET comes back to the instruction after the CALL, with SP where it was.
///
/// `CALL nn` at PC whose target holds `RET`, with IME off and no EI pending, on a
/// memory where the two bytes the call pushes are not the RET itself.
pub proof fn lemma_call_then_ret_round_trips(bus: FlatMemory, next: FlatMemory, c: Cpu)
    requires
        bus.memory@.len() == 0x1_0000,
        c.state == State::Running,
        !c.halt_bug,
        !c.ime,
        !c.ime_pending,
        flat_read(bus.model(), c.regs.pc) == 0xCD,
        ({
            let target = pair(
                flat_read(bus.model(), inc16(inc16(c.regs.pc))),
                flat_read(bus.model(), inc16(c.regs.pc)),
            );
            &&& flat_read(bus.model(), target) == 0xC9
            &&& dec16(c.regs.sp) != target
            &&& dec16(dec16(c.regs.sp)) != target
        }),
        next.model() == flat_run(bus.model(), Cpu::step_spec(bus, c).1),
    ensures
        ({
            let (c1, _, legal1) = Cpu::step_spec(bus, c);
            let (c2, _, legal2) = Cpu::step_spec(next, c1);
            &&& legal1 && legal2
            &&& c1.regs.pc == pair(
                flat_read(bus.model(), inc16(inc16(c.regs.pc))),
                flat_read(bus.model(), inc16(c.regs.pc)),
            )
            &&& c2.regs.pc == inc16(inc16(inc16(c.regs.pc)))
            &&& c2.regs.sp == c.regs.sp
        }),
{
    let m = bus.model();
    let pc = c.regs.pc;
    let sp = c.regs.sp;
    let back = inc16(inc16(inc16(pc)));
    let target = pair(flat_read(m, inc16(inc16(pc))), flat_read(m, inc16(pc)));
    lemma_call_step(bus, c);
    let (c1, ops1, legal1) = Cpu::step_spec(bus, c);
    let e = Seq::<BusOp>::empty();
    let a1 = e.push(BusOp::Tick);
    let a2 = a1.push(BusOp::Read(pc));
    let a3 = a2.push(BusOp::Tick);
    let a4 = a3.push(BusOp::Read(inc16(pc)));
    let a5 = a4.push(BusOp::Tick);
    let a6 = a5.push(BusOp::Read(inc16(inc16(pc))));
    let a7 = a6.push(BusOp::Tick);
    let a8 = a7.push(BusOp::Tick);
    let a9 = a8.push(BusOp::Write(dec16(sp), high_byte(back)));
    let a10 = a9.push(BusOp::Tick);
    let a11 = a10.push(BusOp::Write(dec16(dec16(sp)), low_byte(back)));
    assert(ops1 =~= a11);
    lemma_ticks_keep_memory(m, e);
    assert(flat_run(m, e) == m);
    lemma_reads_keep_memory(m, a1, pc);
    lemma_ticks_keep_memory(m, a2);
    lemma_reads_keep_memory(m, a3, inc16(pc));
    lemma_ticks_keep_memory(m, a4);
    lemma_reads_keep_memory(m, a5, inc16(inc16(pc)));
    lemma_ticks_keep_memory(m, a6);
    lemma_ticks_keep_memory(m, a7);
    lemma_write_updates_memory(m, a8, dec16(sp), high_byte(back));
    lemma_ticks_keep_memory(m, a9);
    lemma_write_updates_memory(m, a10, dec16(dec16(sp)), low_byte(back));
    let m2 = next.model();
    assert(m2.memory == m.memory.update(dec16(sp) as int, high_byte(back)).update(
        dec16(dec16(sp)) as int,
        low_byte(back),
    ));
    assert(c1.regs.pc == target);
    assert(flat_read(m2, target) == 0xC9);
    assert(flat_read(m2, dec16(dec16(sp))) == low_byte(back));
    assert(inc16(dec16(dec16(sp))) == dec16(sp));
    assert(flat_read(m2, dec16(sp)) == high_byte(back));
    lemma_ret_step(next, c1);
    assert(inc16(dec16(sp)) == sp);
    assert(pair(high_byte(back), low_byte(back)) == back);
}

/// A step at `EI` or `DI`.
proof fn lemma_interrupt_switch_step<B: Bus>(bus: B, c: Cpu, opcode: u8)
    requires
        c.state == State::Running,
        !c.ime,
        !c.ime_pending,
        opcode == 0xFB || opcode == 0xF3,
        Cpu::next_opcode_spec(bus, c) == opcode,
    ensures
        Cpu::step_spec(bus, c).2,
        Cpu::step_spec(bus, c).0.ime == false,
        Cpu::step_spec(bus, c).0.ime_pending == (opcode == 0xFB),
{
    assert(!super::is_illegal(opcode));
    lemma_step_executes(bus, c);
    let (c1, d1, fetched) = Cpu::fetch8_spec(bus, c, Seq::empty());
    assert(fetched == opcode);
    if opcode == 0xFB {
        assert(Cpu::execute_spec(bus, c1, d1, opcode) == Cpu::block3_spec(bus, c1, d1, 7, 3));
    } else {
        assert(Cpu::execute_spec(bus, c1, d1, opcode) == Cpu::block3_spec(bus, c1, d1, 6, 3));
    }
}

/// EI takes effect only after the instruction that follows it: the EI itself leaves
/// IME off, and the next step, whatever it does, ends with IME on — without taking
/// an interrupt first, since it starts with IME still off.
pub proof fn lemma_ei_is_deferred<B: Bus>(bus: B, next: B, c: Cpu)
    requires
        c.state == State::Running,
        !c.ime,
        !c.ime_pending,
        Cpu::next_opcode_spec(bus, c) == 0xFB,
    ensures
        !Cpu::step_spec(bus, c).0.ime,
        ({
            let c1 = Cpu::step_spec(bus, c).0;
            let (c2, d2, opcode) = Cpu::fetch8_spec(next, c1, Seq::empty());
            let c3 = if super::is_illegal(opcode) {
                c2
            } else {
                Cpu::execute_spec(next, c2, d2, opcode).0
            };
            Cpu::step_spec(next, c1).0 == (Cpu { ime: true, ime_pending: false, ..c3 })
        }),
{
    lemma_interrupt_switch_step(bus, c, 0xFB);
    reveal(Cpu::step_spec);
}

/// DI takes effect at once: after the step that runs it, IME is off.
pub proof fn lemma_di_is_immediate<B: Bus>(bus: B, c: Cpu)
    requires
        c.state == State::Running,
        !c.ime_pending,
        !c.ime || bus.pending_after(Seq::empty()) is None,
        Cpu::next_opcode_spec(bus, c) == 0xF3,
    ensures
        !Cpu::step_spec(bus, c).0.ime,
{
    reveal(Cpu::step_spec);
    assert(!super::is_illegal(0xF3));
    let (c1, d1, fetched) = Cpu::fetch8_spec(bus, c, Seq::empty());
    assert(Cpu::execute_spec(bus, c1, d1, 0xF3) == Cpu::block3_spec(bus, c1, d1, 6, 3));
}

/// An interrupt is taken between instructions: with IME on and an interrupt pending,
/// a running CPU acknowledges it, spends two idle cycles, pushes PC high byte first,
/// and jumps to the interrupt's handler with IME off — five M-cycles in all.
pub proof fn lemma_dispatch_calls_the_handler<B: Bus>(bus: B, c: Cpu, interrupt: Interrupt)
    requires
        c.state == State::Running || c.state == State::Halted,
        c.ime,
        !c.ime_pending,
        bus.pending_after(Seq::empty()) == Some(interrupt),
    ensures
        ({
            let (c1, ops, legal) = Cpu::step_spec(bus, c);
            let pc = c.regs.pc;
            let sp = c.regs.sp;
            &&& legal
            &&& c1 == (Cpu {
                state: State::Running,
                ime: false,
                ..c.with_sp(dec16(dec16(sp))).with_pc(interrupt.handler_spec())
            })
            &&& ops == seq![
                BusOp::Acknowledge(interrupt),
                BusOp::Tick,
                BusOp::Tick,
                BusOp::Tick,
                BusOp::Write(dec16(sp), high_byte(pc)),
                BusOp::Tick,
                BusOp::Write(dec16(dec16(sp)), low_byte(pc)),
                BusOp::Tick,
            ]
        }),
{
    reveal(Cpu::step_spec);
    let (c1, ops, legal) = Cpu::step_spec(bus, c);
    assert(ops =~= seq![
        BusOp::Acknowledge(interrupt),
        BusOp::Tick,
        BusOp::Tick,
        BusOp::Tick,
        BusOp::Write(dec16(c.regs.sp), high_byte(c.regs.pc)),
        BusOp::Tick,
        BusOp::Write(dec16(dec16(c.regs.sp)), low_byte(c.regs.pc)),
        BusOp::Tick,
    ]);
}

/// A pending interrupt wakes a halted CPU even with IME off: the step spends one
/// M-cycle and leaves the CPU running at the same PC, without taking the interrupt.
pub proof fn lemma_pending_interrupt_wakes_halt<B: Bus>(bus: B, c: Cpu)
    requires
        c.state == State::Halted,
        !c.ime,
        !c.ime_pending,
        bus.pending_after(Seq::empty()) is Some,
    ensures
        Cpu::step_spec(bus, c) == (Cpu { state: State::Running, ..c }, seq![BusOp::Tick], true),
{
    reveal(Cpu::step_spec);
    assert(Seq::<BusOp>::empty().push(BusOp::Tick) =~= seq![BusOp::Tick]);
}

/// Without an interrupt to wake it, a halted CPU stays halted and burns one M-cycle.
pub proof fn lemma_halt_burns_cycles<B: Bus>(bus: B, c: Cpu)
    requires
        c.state == State::Halted,
        !c.ime_pending,
        bus.pending_after(Seq::empty()) is None,
    ensures
        Cpu::step_spec(bus, c) == (c, seq![BusOp::Tick], true),
{
    reveal(Cpu::step_spec);
    assert(Seq::<BusOp>::empty().push(BusOp::Tick) =~= seq![BusOp::Tick]);
}

/// With IME off, a pending interrupt never interrupts a running CPU: the step fetches
/// the next opcode — it starts with a tick and a read at PC, not an acknowledgement —
/// and executes it, exactly as with nothing pending.
pub proof fn lemma_no_dispatch_while_ime_is_off<B: Bus>(bus: B, c: Cpu)
    requires
        c.state == State::Running,
        !c.ime,
        !c.ime_pending,
    ensures
        ({
            let (c1, d1, opcode) = Cpu::fetch8_spec(bus, c, Seq::empty());
            &&& d1 == seq![BusOp::Tick, BusOp::Read(c.regs.pc)]
            &&& Cpu::step_spec(bus, c) == if super::is_illegal(opcode) {
                (c1, d1, false)
            } else {
                let (c2, d2) = Cpu::execute_spec(bus, c1, d1, opcode);
                (c2, d2, true)
            }
        }),
{
    reveal(Cpu::step_spec);
    let (c1, d1, opcode) = Cpu::fetch8_spec(bus, c, Seq::empty());
    assert(d1 =~= seq![BusOp::Tick, BusOp::Read(c.regs.pc)]);
}

/// RETI enables interrupts at once, unlike EI: the step that returns ends with IME on
/// and nothing left pending, PC popped from the stack and SP two higher.
pub proof fn lemma_reti_enables_at_once<B: Bus>(bus: B, c: Cpu)
    requires
        c.state == State::Running,
        !c.ime,
        !c.ime_pending,
        !c.halt_bug,
        Cpu::next_opcode_spec(bus, c) == 0xD9,
    ensures
        ({
            let c1 = Cpu::step_spec(bus, c).0;
            let sp = c.regs.sp;
            let fetched = seq![BusOp::Tick, BusOp::Read(c.regs.pc), BusOp::Tick];
            let lo = bus.read_after(fetched, sp);
            let hi = bus.read_after(fetched + seq![BusOp::Read(sp), BusOp::Tick], inc16(sp));
            &&& Cpu::step_spec(bus, c).2
            &&& c1.ime
            &&& !c1.ime_pending
            &&& c1.regs.pc == pair(hi, lo)
            &&& c1.regs.sp == inc16(inc16(sp))
        }),
{
    assert(!super::is_illegal(0xD9));
    lemma_step_executes(bus, c);
    let (c1, d1, fetched) = Cpu::fetch8_spec(bus, c, Seq::empty());
    assert(Cpu::execute_spec(bus, c1, d1, 0xD9) == Cpu::block3_spec(bus, c1, d1, 3, 1));
    let sp = c.regs.sp;
    assert(super::tick_ops(d1) =~= seq![BusOp::Tick, BusOp::Read(c.regs.pc), BusOp::Tick]);
    assert(super::tick_ops(d1).push(BusOp::Read(sp)).push(BusOp::Tick) =~= seq![
        BusOp::Tick,
        BusOp::Read(c.regs.pc),
        BusOp::Tick,
    ] + seq![BusOp::Read(sp), BusOp::Tick]);
}

/// The HALT bug: with IME off and an interrupt already pending, HALT does not halt.
/// The CPU runs on past it, and the next fetch fails to advance PC, so the byte after
/// HALT is read twice.
pub proof fn lemma_halt_bug<B: Bus>(bus: B, next: B, c: Cpu)
    requires
        c.state == State::Running,
        !c.ime,
        !c.ime_pending,
        !c.halt_bug,
        Cpu::next_opcode_spec(bus, c) == 0x76,
        bus.pending_after(seq![BusOp::Tick, BusOp::Read(c.regs.pc)]) is Some,
    ensures
        ({
            let c1 = Cpu::step_spec(bus, c).0;
            let (c2, d2, opcode) = Cpu::fetch8_spec(next, c1, Seq::empty());
            &&& c1.state == State::Running
            &&& c1.regs.pc == inc16(c.regs.pc)
            &&& c2.regs.pc == c1.regs.pc
            &&& !c2.halt_bug
        }),
{
    assert(!super::is_illegal(0x76));
    lemma_step_executes(bus, c);
    let (c1, d1, fetched) = Cpu::fetch8_spec(bus, c, Seq::empty());
    assert(d1 =~= seq![BusOp::Tick, BusOp::Read(c.regs.pc)]);
}

/// CP is a SUB that keeps its result to itself: the flags are exactly SUB's, and A is
/// what it was, whatever it is compared with.
pub proof fn lemma_cp_is_a_sub_that_keeps_a(c: Cpu, value: u8)
    ensures
        Cpu::alu_op_spec(c, 7, value).regs.a == c.regs.a,
        Cpu::alu_op_spec(c, 7, value).regs.f == super::alu::sub_spec(c.regs.a, value, false).1,
{
}

/// AND always sets the half-carry flag, and clears N and C; OR and XOR clear all three.
pub proof fn lemma_logic_op_flags(c: Cpu, value: u8)
    ensures
        Cpu::alu_op_spec(c, 4, value).regs.f.half_carry,
        !Cpu::alu_op_spec(c, 4, value).regs.f.negative,
        !Cpu::alu_op_spec(c, 4, value).regs.f.carry,
        !Cpu::alu_op_spec(c, 5, value).regs.f.half_carry,
        !Cpu::alu_op_spec(c, 6, value).regs.f.half_carry,
        !Cpu::alu_op_spec(c, 5, value).regs.f.carry,
        !Cpu::alu_op_spec(c, 6, value).regs.f.carry,
{
}

/// RLCA, RRCA, RLA and RRA always clear Z, even when the result is zero.
pub proof fn lemma_accumulator_rotates_clear_zero<B: Bus>(bus: B, c: Cpu, done: Seq<BusOp>, y: u8)
    requires
        y < 4,
    ensures
        !Cpu::block0_spec(bus, c, done, y, 7).0.regs.f.zero,
{
}

/// INC rr and DEC rr set no flags.
pub proof fn lemma_inc16_dec16_set_no_flags<B: Bus>(bus: B, c: Cpu, done: Seq<BusOp>, y: u8)
    ensures
        Cpu::block0_spec(bus, c, done, y, 3).0.regs.f == c.regs.f,
{
}

/// BIT only looks: a CB-prefixed BIT writes nothing back, to a register or to memory.
pub proof fn lemma_bit_does_not_write_back<B: Bus>(bus: B, c: Cpu, done: Seq<BusOp>, opcode: u8)
    requires
        super::field_x(opcode) == 1,
    ensures
        Cpu::cb_spec(bus, c, done, opcode).0.regs == (super::registers::Registers {
            f: Cpu::cb_spec(bus, c, done, opcode).0.regs.f,
            ..c.regs
        }),
        Cpu::cb_spec(bus, c, done, opcode).1 == Cpu::read_operand_spec(
            bus,
            c,
            done,
            super::Operand8::from_bits_spec(opcode),
        ).1,
{
}


/// A step that meets an opcode that is not an instruction met it on a running CPU,
/// with no interrupt taken, and leaves the CPU running just past it — or on it, when
/// the HALT bug held PC back.
pub proof fn lemma_an_illegal_step<B: Bus>(bus: B, c: Cpu)
    requires
        !Cpu::step_spec(bus, c).2,
    ensures
        super::is_illegal(Cpu::next_opcode_spec(bus, c)),
        Cpu::step_spec(bus, c).0.state == State::Running,
        Cpu::step_spec(bus, c).0.regs.pc == inc16(c.regs.pc) || Cpu::step_spec(bus, c).0.regs.pc
            == c.regs.pc,
{
    reveal(Cpu::step_spec);
}

/// On the flat test memory, a dispatch clears the source's request in `IF` and
/// nothing else there, leaves the return address on the stack, high byte above the
/// low one, and takes five M-cycles.
pub proof fn lemma_dispatch_on_flat_memory(bus: FlatMemory, next: FlatMemory, c: Cpu, interrupt: Interrupt)
    requires
        c.state == State::Running || c.state == State::Halted,
        c.ime,
        !c.ime_pending,
        bus.pending_after(Seq::empty()) == Some(interrupt),
        bus.memory@.len() == 0x1_0000,
        bus.cycles <= u64::MAX - 5,
        behaves_as(next, bus, Cpu::step_spec(bus, c).1),
    ensures
        next.interrupts == bus.interrupts.acknowledge_spec(interrupt),
        next.memory@ == bus.memory@.update(dec16(c.regs.sp) as int, high_byte(c.regs.pc)).update(
            dec16(dec16(c.regs.sp)) as int,
            low_byte(c.regs.pc),
        ),
        next.cycles == bus.cycles + 5,
{
    lemma_dispatch_calls_the_handler(bus, c, interrupt);
    lemma_flat_memory_after(next, bus, Cpu::step_spec(bus, c).1);
    let sp = c.regs.sp;
    let pc = c.regs.pc;
    let m = bus.model();
    let s1 = seq![BusOp::Acknowledge(interrupt)];
    let s2 = s1.push(BusOp::Tick);
    let s3 = s2.push(BusOp::Tick);
    let s4 = s3.push(BusOp::Tick);
    let s5 = s4.push(BusOp::Write(dec16(sp), high_byte(pc)));
    let s6 = s5.push(BusOp::Tick);
    let s7 = s6.push(BusOp::Write(dec16(dec16(sp)), low_byte(pc)));
    let s8 = s7.push(BusOp::Tick);
    assert(Seq::<BusOp>::empty().push(BusOp::Acknowledge(interrupt)) =~= s1);
    lemma_flat_run_push(m, Seq::empty(), BusOp::Acknowledge(interrupt));
    lemma_flat_run_push(m, s1, BusOp::Tick);
    lemma_flat_run_push(m, s2, BusOp::Tick);
    lemma_flat_run_push(m, s3, BusOp::Tick);
    lemma_flat_run_push(m, s4, BusOp::Write(dec16(sp), high_byte(pc)));
    lemma_flat_run_push(m, s5, BusOp::Tick);
    lemma_flat_run_push(m, s6, BusOp::Write(dec16(dec16(sp)), low_byte(pc)));
    lemma_flat_run_push(m, s7, BusOp::Tick);
    assert(s8 =~= Cpu::step_spec(bus, c).1);
}

/// On the flat test memory, waking from HALT with IME off leaves `IF` as it was — the
/// request stays for the handler to see — and spends one M-cycle, touching nothing
/// else.
pub proof fn lemma_wake_on_flat_memory(bus: FlatMemory, next: FlatMemory, c: Cpu)
    requires
        c.state == State::Halted,
        !c.ime,
        !c.ime_pending,
        bus.pending_after(Seq::empty()) is Some,
        behaves_as(next, bus, Cpu::step_spec(bus, c).1),
    ensures
        Cpu::step_spec(bus, c).0 == (Cpu { state: State::Running, ..c }),
        next.interrupts == bus.interrupts,
        next.memory@ == bus.memory@,
        next.cycles == crate::bus::wrapping_inc(bus.cycles),
{
    lemma_pending_interrupt_wakes_halt(bus, c);
    lemma_flat_memory_after(next, bus, Cpu::step_spec(bus, c).1);
    lemma_flat_run_push(bus.model(), Seq::empty(), BusOp::Tick);
    assert(Seq::<BusOp>::empty().push(BusOp::Tick) =~= seq![BusOp::Tick]);
}

/// Every opcode but the eleven holes is an instruction: a running CPU that takes no
/// interrupt executes whatever it fetches, and reports an error exactly when the
/// opcode is one of 0xD3, 0xDB, 0xDD, 0xE3, 0xE4, 0xEB, 0xEC, 0xED, 0xF4, 0xFC and
/// 0xFD.
pub proof fn lemma_every_other_opcode_is_an_instruction<B: Bus>(bus: B, c: Cpu)
    requires
        c.state == State::Running,
        !(c.ime && bus.pending_after(Seq::empty()) is Some),
    ensures
        Cpu::step_spec(bus, c).2 <==> !super::is_illegal(Cpu::next_opcode_spec(bus, c)),
{
    reveal(Cpu::step_spec);
}

/// The loads through HL that step the pointer: `LD (HL+),A` and `LD A,(HL+)` move HL
/// up by one, `LD (HL-),A` and `LD A,(HL-)` move it down by one, whichever way the byte
/// goes. The access itself uses HL as it was: a store writes A there, a load reads A
/// from there.
#[verifier::spinoff_prover]
#[verifier::rlimit(60)]
pub proof fn lemma_hl_loads_step_the_pointer<B: Bus>(bus: B, c: Cpu, opcode: u8)
    requires
        c.state == State::Running,
        !c.halt_bug,
        !c.ime,
        !c.ime_pending,
        opcode == 0x22 || opcode == 0x2A || opcode == 0x32 || opcode == 0x3A,
        Cpu::next_opcode_spec(bus, c) == opcode,
    ensures
        ({
            let (c1, ops, legal) = Cpu::step_spec(bus, c);
            let pc = c.regs.pc;
            let hl = c.regs.get16_spec(Reg16::HL) as int;
            let fetched = seq![BusOp::Tick, BusOp::Read(pc), BusOp::Tick];
            &&& legal
            &&& c1.regs.pc as int == (pc + 1) % 0x10000
            &&& c1.regs.get16_spec(Reg16::HL) as int == if opcode == 0x22 || opcode == 0x2A {
                (hl + 1) % 0x10000
            } else {
                (hl + 0xFFFF) % 0x10000
            }
            &&& (opcode == 0x22 || opcode == 0x32) ==> {
                &&& ops == fetched.push(BusOp::Write(hl as u16, c.regs.a))
                &&& c1.regs.a == c.regs.a
            }
            &&& (opcode == 0x2A || opcode == 0x3A) ==> {
                &&& ops == fetched.push(BusOp::Read(hl as u16))
                &&& c1.regs.a == bus.read_after(fetched, hl as u16)
            }
        }),
{
    let e = Seq::<BusOp>::empty();
    assert(!super::is_illegal(opcode));
    lemma_step_executes(bus, c);
    let (c1, d1, fetched_op) = Cpu::fetch8_spec(bus, c, e);
    assert(fetched_op == opcode);
    let y: u8 = if opcode == 0x22 {
        4
    } else if opcode == 0x2A {
        5
    } else if opcode == 0x32 {
        6
    } else {
        7
    };
    assert(super::field_x(opcode) == 0 && super::field_z(opcode) == 2 && super::field_y(opcode)
        == y);
    assert(Cpu::execute_spec(bus, c1, d1, opcode) == Cpu::block0_spec(bus, c1, d1, y, 2));
    lemma_block0_hl_load(bus, c1, d1, y);
    assert(d1 =~= seq![BusOp::Tick, BusOp::Read(c.regs.pc)]);
    assert(super::tick_ops(d1) =~= seq![BusOp::Tick, BusOp::Read(c.regs.pc), BusOp::Tick]);
}

proof fn lemma_block0_hl_load<B: Bus>(bus: B, c: Cpu, done: Seq<BusOp>, y: u8)
    requires
        4 <= y < 8,
    ensures
        ({
            let (c2, d2) = Cpu::block0_spec(bus, c, done, y, 2);
            let hl = c.regs.get16_spec(Reg16::HL);
            &&& c2.regs.get16_spec(Reg16::HL) == if y < 6 {
                inc16(hl)
            } else {
                dec16(hl)
            }
            &&& c2.regs.pc == c.regs.pc
            &&& y % 2 == 0 ==> d2 == super::write8_ops(done, hl, c.regs.a) && c2.regs.a == c.regs.a
            &&& y % 2 == 1 ==> d2 == super::read8_spec(bus, done, hl).1 && c2.regs.a
                == super::read8_spec(bus, done, hl).0
        }),
{
    let hl = c.regs.get16_spec(Reg16::HL);
    let stepped = if y < 6 {
        inc16(hl)
    } else {
        dec16(hl)
    };
    super::registers::lemma_get16_after_set16(c.regs, Reg16::HL, stepped);
}

/// The register the 3-bit field `index` names in the published opcode map: B, C, D,
/// E, H, L, (HL), A. Slot 6 is memory, not a register.
pub open spec fn named_register(regs: super::registers::Registers, index: int) -> u8 {
    if index == 0 {
        regs.b
    } else if index == 1 {
        regs.c
    } else if index == 2 {
        regs.d
    } else if index == 3 {
        regs.e
    } else if index == 4 {
        regs.h
    } else if index == 5 {
        regs.l
    } else {
        regs.a
    }
}

/// `LD r,r'` copies: opcode 0x40 + 8 * dst + src, between registers, leaves the
/// destination holding what the source held, every other register and the flags as
/// they were, and takes one M-cycle, the fetch.
#[verifier::spinoff_prover]
#[verifier::rlimit(60)]
pub proof fn lemma_ld_r_r_copies<B: Bus>(bus: B, c: Cpu, dst: int, src: int)
    requires
        c.state == State::Running,
        !c.halt_bug,
        !c.ime,
        !c.ime_pending,
        0 <= dst < 8,
        0 <= src < 8,
        dst != 6,
        src != 6,
        Cpu::next_opcode_spec(bus, c) == 0x40 + 8 * dst + src,
    ensures
        ({
            let (c1, ops, legal) = Cpu::step_spec(bus, c);
            &&& legal
            &&& ops == seq![BusOp::Tick, BusOp::Read(c.regs.pc)]
            &&& named_register(c1.regs, dst) == named_register(c.regs, src)
            &&& forall|k: int|
                0 <= k < 8 && k != 6 && k != dst ==> #[trigger] named_register(c1.regs, k)
                    == named_register(c.regs, k)
            &&& c1.regs.f == c.regs.f
            &&& c1.regs.sp == c.regs.sp
            &&& c1.regs.pc as int == (c.regs.pc + 1) % 0x10000
        }),
{
    let opcode = (0x40 + 8 * dst + src) as u8;
    assert(!super::is_illegal(opcode));
    assert(opcode != 0x76);
    lemma_step_executes(bus, c);
    let e = Seq::<BusOp>::empty();
    let (c1, d1, fetched) = Cpu::fetch8_spec(bus, c, e);
    assert(fetched == opcode);
    assert(super::field_x(opcode) == 1 && super::field_y(opcode) == dst && super::field_z(opcode)
        == src);
    assert(d1 =~= seq![BusOp::Tick, BusOp::Read(c.regs.pc)]);
}

/// The eight operations the ALU field selects, in the published order ADD, ADC, SUB,
/// SBC, AND, XOR, OR, CP, as arithmetic on A and the operand: ADC and SBC take the
/// carry in; ADD and ADC carry out past 255 and half-carry past 15 in the low
/// nibble; SUB, SBC and CP borrow when the operand (plus carry) exceeds A; AND sets
/// the half-carry, XOR and OR clear it, and the logical three clear the carry; Z says
/// the result is zero, and N is set exactly for the subtractions.
pub proof fn lemma_alu_ops_as_documented(c: Cpu, value: u8)
    ensures
        ({
            let a = c.regs.a as int;
            let v = value as int;
            let cy: int = if c.regs.f.carry {
                1
            } else {
                0
            };
            let r = |op: u8| Cpu::alu_op_spec(c, op, value).regs;
            &&& r(0).a == (a + v) % 256 && r(0).f.carry == (a + v > 255) && r(0).f.half_carry == (a
                % 16 + v % 16 > 15) && !r(0).f.negative && r(0).f.zero == (r(0).a == 0)
            &&& r(1).a == (a + v + cy) % 256 && r(1).f.carry == (a + v + cy > 255)
                && r(1).f.half_carry == (a % 16 + v % 16 + cy > 15) && !r(1).f.negative
                && r(1).f.zero == (r(1).a == 0)
            &&& r(2).a == (a - v) % 256 && r(2).f.carry == (v > a) && r(2).f.half_carry == (v % 16
                > a % 16) && r(2).f.negative && r(2).f.zero == (r(2).a == 0)
            &&& r(3).a == (a - v - cy) % 256 && r(3).f.carry == (v + cy > a) && r(3).f.half_carry
                == (v % 16 + cy > a % 16) && r(3).f.negative && r(3).f.zero == (r(3).a == 0)
            &&& r(4).a == c.regs.a & value && r(4).f.half_carry && !r(4).f.carry
                && !r(4).f.negative && r(4).f.zero == (r(4).a == 0)
            &&& r(5).a == c.regs.a ^ value && !r(5).f.half_carry && !r(5).f.carry
                && !r(5).f.negative && r(5).f.zero == (r(5).a == 0)
            &&& r(6).a == c.regs.a | value && !r(6).f.half_carry && !r(6).f.carry
                && !r(6).f.negative && r(6).f.zero == (r(6).a == 0)
            &&& r(7).a == c.regs.a && r(7).f.carry == (v > a) && r(7).f.zero == (a == v)
                && r(7).f.negative
        }),
{
}

/// Whether the condition an opcode's `cc` field names holds: NZ, Z, NC, C in that
/// order, with the unconditional forms always taken.
pub open spec fn condition_named(opcode: u8, f: super::registers::Flags) -> bool {
    if opcode == 0x20 || opcode == 0xC2 {
        !f.zero
    } else if opcode == 0x28 || opcode == 0xCA {
        f.zero
    } else if opcode == 0x30 || opcode == 0xD2 {
        !f.carry
    } else if opcode == 0x38 || opcode == 0xDA {
        f.carry
    } else {
        true
    }
}

/// JR jumps relative to the instruction after it: with its condition holding (or
/// none), PC ends at the address after the two-byte instruction plus the signed
/// displacement, in three M-cycles; otherwise PC just moves past it, in two.
#[verifier::spinoff_prover]
#[verifier::rlimit(60)]
pub proof fn lemma_jr_is_relative<B: Bus>(bus: B, c: Cpu, opcode: u8)
    requires
        c.state == State::Running,
        !c.halt_bug,
        !c.ime,
        !c.ime_pending,
        opcode == 0x18 || opcode == 0x20 || opcode == 0x28 || opcode == 0x30 || opcode == 0x38,
        Cpu::next_opcode_spec(bus, c) == opcode,
    ensures
        ({
            let (c1, ops, legal) = Cpu::step_spec(bus, c);
            let pc = c.regs.pc as int;
            let byte = bus.read_after(seq![BusOp::Tick, BusOp::Read(c.regs.pc), BusOp::Tick], ((pc
                + 1) % 0x10000) as u16);
            let e = (byte as i8) as int;
            let taken = condition_named(opcode, c.regs.f);
            &&& legal
            &&& c1.regs.pc as int == if taken {
                (pc + 2 + e) % 0x10000
            } else {
                (pc + 2) % 0x10000
            }
            &&& tick_count(ops) == if taken {
                3nat
            } else {
                2nat
            }
            &&& c1.regs.sp == c.regs.sp
            &&& c1.regs.f == c.regs.f
        }),
{
    let pc = c.regs.pc;
    lemma_jr_dispatch(bus, c, opcode);
    let d1 = seq![BusOp::Tick, BusOp::Read(pc)];
    assert(super::tick_ops(d1) =~= seq![BusOp::Tick, BusOp::Read(pc), BusOp::Tick]);
    lemma_relative_target(pc, (super::read8_spec(bus, d1, inc16(pc)).0 as i8) as int);
    lemma_jr_ticks(pc);
    assert(super::read8_spec(bus, d1, inc16(pc)).1 =~= seq![BusOp::Tick, BusOp::Read(pc), BusOp::Tick, BusOp::Read(inc16(pc))]);
}

/// The bus operations of a JR: fetch, operand fetch, and one more cycle when taken.
proof fn lemma_jr_ticks(pc: u16)
    ensures
        ({
            let read = seq![BusOp::Tick, BusOp::Read(pc), BusOp::Tick, BusOp::Read(inc16(pc))];
            &&& tick_count(read) == 2
            &&& tick_count(read.push(BusOp::Tick)) == 3
        }),
{
    broadcast use crate::bus::lemma_tick_count_push;
    let e = Seq::<BusOp>::empty();
    assert(e.push(BusOp::Tick) =~= seq![BusOp::Tick]);
    assert(seq![BusOp::Tick].push(BusOp::Read(pc)) =~= seq![BusOp::Tick, BusOp::Read(pc)]);
    assert(seq![BusOp::Tick, BusOp::Read(pc)].push(BusOp::Tick) =~= seq![BusOp::Tick, BusOp::Read(pc), BusOp::Tick]);
    assert(seq![BusOp::Tick, BusOp::Read(pc), BusOp::Tick].push(BusOp::Read(inc16(pc))) =~= seq![BusOp::Tick, BusOp::Read(pc), BusOp::Tick, BusOp::Read(inc16(pc))]);
    assert(tick_count(e) == 0);
}

/// A JR opcode is fetched and handed to the block of `x == 0` with `z == 0`.
#[verifier::spinoff_prover]
#[verifier::rlimit(60)]
proof fn lemma_jr_dispatch<B: Bus>(bus: B, c: Cpu, opcode: u8)
    requires
        c.state == State::Running,
        !c.halt_bug,
        !c.ime,
        !c.ime_pending,
        opcode == 0x18 || opcode == 0x20 || opcode == 0x28 || opcode == 0x30 || opcode == 0x38,
        Cpu::next_opcode_spec(bus, c) == opcode,
    ensures
        ({
            let pc = c.regs.pc;
            let (c2, d2, legal) = Cpu::step_spec(bus, c);
            let (byte, read) = super::read8_spec(bus, seq![BusOp::Tick, BusOp::Read(pc)], inc16(pc));
            let taken = condition_named(opcode, c.regs.f);
            &&& legal
            &&& c2.regs.pc == if taken {
                super::offset16(inc16(inc16(pc)), byte as i8)
            } else {
                inc16(inc16(pc))
            }
            &&& d2 == if taken {
                super::tick_ops(read)
            } else {
                read
            }
            &&& c2.regs.sp == c.regs.sp
            &&& c2.regs.f == c.regs.f
        }),
{
    assert(!super::is_illegal(opcode));
    lemma_step_executes(bus, c);
    let e0 = Seq::<BusOp>::empty();
    let (c1, d1, fetched) = Cpu::fetch8_spec(bus, c, e0);
    assert(fetched == opcode);
    let y: u8 = (opcode / 8) as u8;
    assert(super::field_x(opcode) == 0 && super::field_z(opcode) == 0 && super::field_y(opcode) == y);
    assert(Cpu::execute_spec(bus, c1, d1, opcode) == Cpu::block0_spec(bus, c1, d1, y, 0));
    assert(d1 =~= seq![BusOp::Tick, BusOp::Read(c.regs.pc)]);
    assert(c1 == c.with_pc(inc16(c.regs.pc)));
    lemma_block0_jr(bus, c1, d1, y);
    let taken = condition_named(opcode, c.regs.f);
    if opcode == 0x18 {
        assert(y == 3 && taken);
    } else if opcode == 0x20 {
        assert(y == 4 && taken == !c.regs.f.zero);
    } else if opcode == 0x28 {
        assert(y == 5 && taken == c.regs.f.zero);
    } else if opcode == 0x30 {
        assert(y == 6 && taken == !c.regs.f.carry);
    } else {
        assert(y == 7 && taken == c.regs.f.carry);
    }
}

#[verifier::spinoff_prover]
#[verifier::rlimit(60)]
proof fn lemma_block0_jr<B: Bus>(bus: B, c: Cpu, done: Seq<BusOp>, y: u8)
    requires
        3 <= y < 8,
        !c.halt_bug,
    ensures
        ({
            let (c2, d2) = Cpu::block0_spec(bus, c, done, y, 0);
            let (byte, read) = super::read8_spec(bus, done, c.regs.pc);
            let taken = if y == 3 {
                true
            } else if y == 4 {
                !c.regs.f.zero
            } else if y == 5 {
                c.regs.f.zero
            } else if y == 6 {
                !c.regs.f.carry
            } else {
                c.regs.f.carry
            };
            &&& c2.regs.pc == if taken {
                super::offset16(inc16(c.regs.pc), byte as i8)
            } else {
                inc16(c.regs.pc)
            }
            &&& d2 == if taken {
                super::tick_ops(read)
            } else {
                read
            }
            &&& c2.regs.sp == c.regs.sp
            &&& c2.regs.f == c.regs.f
        }),
{
    if y == 3 {
        assert(Cpu::block0_spec(bus, c, done, 3, 0) == Cpu::jump_relative_spec(bus, c, done, None));
    } else if y == 4 {
        assert(Cpu::block0_spec(bus, c, done, 4, 0) == Cpu::jump_relative_spec(bus, c, done, Some(super::Condition::NotZero)));
    } else if y == 5 {
        assert(Cpu::block0_spec(bus, c, done, 5, 0) == Cpu::jump_relative_spec(bus, c, done, Some(super::Condition::Zero)));
    } else if y == 6 {
        assert(Cpu::block0_spec(bus, c, done, 6, 0) == Cpu::jump_relative_spec(bus, c, done, Some(super::Condition::NotCarry)));
    } else {
        assert(Cpu::block0_spec(bus, c, done, 7, 0) == Cpu::jump_relative_spec(bus, c, done, Some(super::Condition::Carry)));
    }
}

/// Two steps past `pc`, then `e` on, wrapping.
proof fn lemma_relative_target(pc: u16, e: int)
    requires
        -128 <= e < 128,
    ensures
        super::offset16(inc16(inc16(pc)), e as i8) as int == (pc + 2 + e) % 0x10000,
        inc16(inc16(pc)) as int == (pc + 2) % 0x10000,
{
    let p2 = inc16(inc16(pc)) as int;
    assert(p2 == (pc + 2) % 0x10000);
    vstd::arithmetic::div_mod::lemma_add_mod_noop(pc + 2, e, 0x10000);
    vstd::arithmetic::div_mod::lemma_add_mod_noop(p2, e, 0x10000);
    vstd::arithmetic::div_mod::lemma_small_mod(p2 as nat, 0x10000);
    vstd::arithmetic::div_mod::lemma_mod_twice(e, 0x10000);
}

} // verus!
