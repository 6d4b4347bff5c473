//! The Sharp SM83 CPU core.
//!
//! # How instructions are decoded
//!
//! The opcode map is mostly regular: the SM83 encodes operands *inside* the opcode
//! bits, so whole families collapse into a handful of arms. Splitting an opcode as
//! `xxyyyzzz` (2 bits, 3 bits, 3 bits) exposes the structure:
//!
//! - `x=1` is the entire 8-bit load block: `LD r, r'` with `y` the destination and
//!   `z` the source. (`0x76` is the exception — the slot where `LD (HL), (HL)` would
//!   be is HALT instead.)
//! - `x=2` is ALU-with-register: `y` picks the operation, `z` the operand.
//! - `x=3` with `z=6` is the same eight ALU operations against an immediate byte.
//! - In `x=0`, `z=4` and `z=5` are `INC r` / `DEC r` with `y` naming the register.
//!
//! The `r` field (`y` or `z`) numbers registers B, C, D, E, H, L, (HL), A — where
//! slot 6 is not a register but a read or write through HL. [`Operand8`] captures
//! that distinction so the executor handles both uniformly.
//!
//! # Timing
//!
//! Every memory access costs one M-cycle, and [`Cpu`] ticks the bus as it goes rather
//! than returning a total at the end. Internal delays (the extra cycle a taken branch
//! costs, say) are ticked explicitly. So cycle counting falls out of doing the work
//! in the right order instead of being a table to keep in sync. [`timing`] bounds
//! what that adds up to: every step takes between one and six M-cycles.
//!
//! # Specification
//!
//! The semantics of every instruction is stated as spec functions over the CPU state
//! and the sequence of [`BusOp`]s performed so far; a read's value is whatever the
//! bus answers after those operations ([`Bus::read_after`]). [`Cpu::step`] is proved
//! to update the CPU and to drive the bus exactly as [`Cpu::step_spec`] says.
pub mod alu;
pub mod laws;
pub mod timing;
pub mod registers;

use vstd::prelude::*;
use crate::bus::{Bus, BusOp, behaves_as, lemma_behaves_as_step, lemma_behaves_as_now, lemma_behaves_as_itself};
use crate::interrupts::Interrupt;
use registers::{Flags, Reg8, Reg16, Registers, pair, high_byte, low_byte, split_u16, join_u16};
use alu::{add_spec, sub_spec, logic_flags, inc_spec, dec_spec, add16_spec, add_sp_offset_spec, daa_spec, rlc_spec, rrc_spec, rl_spec, rr_spec, sla_spec, sra_spec, srl_spec, swap_spec, bit_spec, res_spec, set_spec};

verus! {

/// Where an 8-bit instruction operand lives.
///
/// The 3-bit register field encodes slot 6 as "memory at HL" rather than a register,
/// so operands are either a register or an indirection.
#[derive(Debug, Clone, Copy, PartialEq, Eq, Structural)]
pub enum Operand8 {
    Reg(Reg8),
    /// The byte at the address in HL. Costs an M-cycle to touch.
    MemHl,
}

impl Operand8 {
    pub open spec fn from_bits_spec(bits: u8) -> Operand8 {
        let slot = bits % 8;
        if slot == 0 {
            Operand8::Reg(Reg8::B)
        } else if slot == 1 {
            Operand8::Reg(Reg8::C)
        } else if slot == 2 {
            Operand8::Reg(Reg8::D)
        } else if slot == 3 {
            Operand8::Reg(Reg8::E)
        } else if slot == 4 {
            Operand8::Reg(Reg8::H)
        } else if slot == 5 {
            Operand8::Reg(Reg8::L)
        } else if slot == 6 {
            Operand8::MemHl
        } else {
            Operand8::Reg(Reg8::A)
        }
    }

    /// Decodes a 3-bit register field.
    pub fn from_bits(bits: u8) -> (r: Self)
        ensures
            r == Self::from_bits_spec(bits),
    {
        let slot = bits % 8;
        if slot == 0 {
            Operand8::Reg(Reg8::B)
        } else if slot == 1 {
            Operand8::Reg(Reg8::C)
        } else if slot == 2 {
            Operand8::Reg(Reg8::D)
        } else if slot == 3 {
            Operand8::Reg(Reg8::E)
        } else if slot == 4 {
            Operand8::Reg(Reg8::H)
        } else if slot == 5 {
            Operand8::Reg(Reg8::L)
        } else if slot == 6 {
            Operand8::MemHl
        } else {
            Operand8::Reg(Reg8::A)
        }
    }
}

/// The branch conditions encoded in 2 bits: NZ, Z, NC, C.
#[derive(Debug, Clone, Copy, PartialEq, Eq, Structural)]
pub enum Condition {
    NotZero,
    Zero,
    NotCarry,
    Carry,
}

impl Condition {
    pub open spec fn from_bits_spec(bits: u8) -> Condition {
        let slot = bits % 4;
        if slot == 0 {
            Condition::NotZero
        } else if slot == 1 {
            Condition::Zero
        } else if slot == 2 {
            Condition::NotCarry
        } else {
            Condition::Carry
        }
    }

    pub open spec fn holds_spec(self, flags: Flags) -> bool {
        match self {
            Condition::NotZero => !flags.zero,
            Condition::Zero => flags.zero,
            Condition::NotCarry => !flags.carry,
            Condition::Carry => flags.carry,
        }
    }

    pub fn from_bits(bits: u8) -> (r: Self)
        ensures
            r == Self::from_bits_spec(bits),
    {
        let slot = bits % 4;
        if slot == 0 {
            Condition::NotZero
        } else if slot == 1 {
            Condition::Zero
        } else if slot == 2 {
            Condition::NotCarry
        } else {
            Condition::Carry
        }
    }

    pub fn holds(self, flags: Flags) -> (r: bool)
        ensures
            r == self.holds_spec(flags),
    {
        match self {
            Condition::NotZero => !flags.zero,
            Condition::Zero => flags.zero,
            Condition::NotCarry => !flags.carry,
            Condition::Carry => flags.carry,
        }
    }
}

/// Whether an optional condition lets a branch be taken: no condition always does.
pub open spec fn taken_spec(condition: Option<Condition>, flags: Flags) -> bool {
    match condition {
        Some(c) => c.holds_spec(flags),
        None => true,
    }
}

/// Whether the CPU is running or parked waiting for an interrupt.
#[derive(Debug, Clone, Copy, PartialEq, Eq, Structural)]
pub enum State {
    Running,
    /// HALT: stopped until an interrupt is pending. Cheap to resume.
    Halted,
    /// STOP: deep sleep until a button is pressed. Rarely used by games.
    Stopped,
}

/// An opcode that is not an instruction at all.
///
/// Real hardware locks up on these; reaching one means the decoding or the program
/// went wrong, so [`Cpu::step`] reports it rather than carrying on.
#[derive(Debug, Clone, Copy, PartialEq, Eq, Structural)]
pub struct IllegalOpcode {
    pub opcode: u8,
    /// Where the opcode was fetched from.
    pub address: u16,
}

/// The eleven holes in the opcode map.
pub open spec fn is_illegal(opcode: u8) -> bool {
    opcode == 0xD3 || opcode == 0xDB || opcode == 0xDD || opcode == 0xE3 || opcode == 0xE4
        || opcode == 0xEB || opcode == 0xEC || opcode == 0xED || opcode == 0xF4 || opcode
        == 0xFC || opcode == 0xFD
}

/// The `xx` field of `xxyyyzzz`.
pub open spec fn field_x(opcode: u8) -> u8 {
    opcode / 64
}

/// The `yyy` field of `xxyyyzzz`.
pub open spec fn field_y(opcode: u8) -> u8 {
    (opcode / 8) % 8
}

/// The `zzz` field of `xxyyyzzz`.
pub open spec fn field_z(opcode: u8) -> u8 {
    opcode % 8
}

/// Where the holes sit in terms of the decoder's fields.
proof fn lemma_illegal_fields(opcode: u8)
    ensures
        is_illegal(opcode) <==> (field_x(opcode) == 3 && ((field_z(opcode) == 3 && 2
            <= field_y(opcode) <= 5) || (field_z(opcode) == 4 && field_y(opcode) >= 4) || (
        field_z(opcode) == 5 && field_y(opcode) % 2 == 1 && field_y(opcode) / 2 != 0))),
{
    assert(((opcode == 0xD3 || opcode == 0xDB || opcode == 0xDD || opcode == 0xE3 || opcode
        == 0xE4 || opcode == 0xEB || opcode == 0xEC || opcode == 0xED || opcode == 0xF4 || opcode
        == 0xFC || opcode == 0xFD) <==> (opcode / 64 == 3 && ((opcode % 8 == 3 && 2 <= (opcode
        / 8) % 8 <= 5) || (opcode % 8 == 4 && (opcode / 8) % 8 >= 4) || (opcode % 8 == 5 && ((
    opcode / 8) % 8) % 2 == 1 && ((opcode / 8) % 8) / 2 != 0))))) by (bit_vector);
}

/// A 16-bit value one higher, wrapping.
pub open spec fn inc16(value: u16) -> u16 {
    ((value + 1) % 65536) as u16
}

/// A 16-bit value one lower, wrapping.
pub open spec fn dec16(value: u16) -> u16 {
    ((value + 65535) % 65536) as u16
}

/// A 16-bit address moved by a signed 8-bit displacement, wrapping.
pub open spec fn offset16(value: u16, offset: i8) -> u16 {
    ((value + offset) % 65536) as u16
}

/// The operations after one more M-cycle.
pub open spec fn tick_ops(done: Seq<BusOp>) -> Seq<BusOp> {
    done.push(BusOp::Tick)
}

/// A CPU read: one M-cycle, then the read. Returns the byte and the operations done.
pub open spec fn read8_spec<B: Bus>(start: B, done: Seq<BusOp>, address: u16) -> (u8, Seq<BusOp>) {
    let ticked = tick_ops(done);
    (start.read_after(ticked, address), ticked.push(BusOp::Read(address)))
}

/// A CPU write: one M-cycle, then the write.
pub open spec fn write8_ops(done: Seq<BusOp>, address: u16, value: u8) -> Seq<BusOp> {
    tick_ops(done).push(BusOp::Write(address, value))
}

/// The register pair a 2-bit field selects, slot 3 being SP.
pub open spec fn reg16_sp_spec(bits: u8) -> Reg16 {
    let slot = bits % 4;
    if slot == 0 {
        Reg16::BC
    } else if slot == 1 {
        Reg16::DE
    } else if slot == 2 {
        Reg16::HL
    } else {
        Reg16::SP
    }
}

/// The same field as PUSH and POP read it: slot 3 is AF.
pub open spec fn reg16_af_spec(bits: u8) -> Reg16 {
    let slot = bits % 4;
    if slot == 0 {
        Reg16::BC
    } else if slot == 1 {
        Reg16::DE
    } else if slot == 2 {
        Reg16::HL
    } else {
        Reg16::AF
    }
}

pub struct Cpu {
    pub regs: Registers,
    pub state: State,
    /// Interrupt Master Enable — the global "may interrupts fire?" switch, toggled
    /// by DI and EI. Not memory-mapped; it lives inside the CPU.
    pub ime: bool,
    /// EI enables interrupts only *after* the following instruction, so a common
    /// `EI; RET` idiom returns before the handler can fire. This defers it one step.
    pub ime_pending: bool,
    /// Set by HALT when it triggers the HALT bug: the next opcode fetch fails to
    /// advance PC, so the byte after HALT executes twice.
    pub halt_bug: bool,
}

/// A machine state in the middle of a step: the CPU and the bus operations so far.
pub type Progress = (Cpu, Seq<BusOp>);

impl Cpu {
    pub open spec fn with_regs(self, regs: Registers) -> Cpu {
        Cpu { regs, ..self }
    }

    pub open spec fn with_pc(self, pc: u16) -> Cpu {
        Cpu { regs: Registers { pc, ..self.regs }, ..self }
    }

    pub open spec fn with_sp(self, sp: u16) -> Cpu {
        Cpu { regs: Registers { sp, ..self.regs }, ..self }
    }

    pub open spec fn with_flags(self, f: Flags) -> Cpu {
        Cpu { regs: Registers { f, ..self.regs }, ..self }
    }

    pub open spec fn with_a(self, a: u8) -> Cpu {
        Cpu { regs: Registers { a, ..self.regs }, ..self }
    }

    /// The CPU the boot ROM hands over: post-boot registers, running, interrupts off.
    pub open spec fn initial() -> Cpu {
        Cpu {
            regs: Registers::post_boot_spec(),
            state: State::Running,
            ime: false,
            ime_pending: false,
            halt_bug: false,
        }
    }

    /// Reads the byte at PC and advances past it — unless the HALT bug is armed, in
    /// which case PC stays put this once.
    pub open spec fn fetch8_spec<B: Bus>(start: B, c: Cpu, done: Seq<BusOp>) -> (Cpu, Seq<BusOp>, u8) {
        let (value, ops) = read8_spec(start, done, c.regs.pc);
        let next = if c.halt_bug {
            Cpu { halt_bug: false, ..c }
        } else {
            c.with_pc(inc16(c.regs.pc))
        };
        (next, ops, value)
    }

    /// A little-endian 16-bit immediate: two fetches.
    pub open spec fn fetch16_spec<B: Bus>(start: B, c: Cpu, done: Seq<BusOp>) -> (Cpu, Seq<BusOp>, u16) {
        let (c1, d1, lo) = Self::fetch8_spec(start, c, done);
        let (c2, d2, hi) = Self::fetch8_spec(start, c1, d1);
        (c2, d2, pair(hi, lo))
    }

    pub open spec fn read_operand_spec<B: Bus>(start: B, c: Cpu, done: Seq<BusOp>, operand: Operand8) -> (u8, Seq<BusOp>) {
        match operand {
            Operand8::Reg(reg) => (c.regs.get8_spec(reg), done),
            Operand8::MemHl => read8_spec(start, done, c.regs.get16_spec(Reg16::HL)),
        }
    }

    pub open spec fn write_operand_spec(c: Cpu, done: Seq<BusOp>, operand: Operand8, value: u8) -> Progress {
        match operand {
            Operand8::Reg(reg) => (c.with_regs(c.regs.set8_spec(reg, value)), done),
            Operand8::MemHl => (c, write8_ops(done, c.regs.get16_spec(Reg16::HL), value)),
        }
    }

    /// PUSH: SP drops by one before each byte, high byte first.
    pub open spec fn push16_spec(c: Cpu, done: Seq<BusOp>, value: u16) -> Progress {
        let sp1 = dec16(c.regs.sp);
        let d1 = write8_ops(done, sp1, high_byte(value));
        let sp2 = dec16(sp1);
        let d2 = write8_ops(d1, sp2, low_byte(value));
        (c.with_sp(sp2), d2)
    }

    /// POP: low byte at SP, high byte above it, SP up by two.
    pub open spec fn pop16_spec<B: Bus>(start: B, c: Cpu, done: Seq<BusOp>) -> (Cpu, Seq<BusOp>, u16) {
        let (lo, d1) = read8_spec(start, done, c.regs.sp);
        let sp1 = inc16(c.regs.sp);
        let (hi, d2) = read8_spec(start, d1, sp1);
        (c.with_sp(inc16(sp1)), d2, pair(hi, lo))
    }

    /// The eight ALU operations selected by `op`: ADD, ADC, SUB, SBC, AND, XOR, OR, CP.
    pub open spec fn alu_op_spec(c: Cpu, op: u8, value: u8) -> Cpu {
        let a = c.regs.a;
        let carry = c.regs.f.carry;
        let (result, flags) = if op == 0 {
            add_spec(a, value, false)
        } else if op == 1 {
            add_spec(a, value, carry)
        } else if op == 2 {
            sub_spec(a, value, false)
        } else if op == 3 {
            sub_spec(a, value, carry)
        } else if op == 4 {
            (a & value, logic_flags(a & value, true))
        } else if op == 5 {
            (a ^ value, logic_flags(a ^ value, false))
        } else if op == 6 {
            (a | value, logic_flags(a | value, false))
        } else {
            (a, sub_spec(a, value, false).1)
        };
        c.with_a(result).with_flags(flags)
    }

    /// RLCA/RRCA/RLA/RRA: the rotate's result in A, with Z always cleared.
    pub open spec fn rotate_a_spec(c: Cpu, rotated: (u8, Flags)) -> Cpu {
        c.with_a(rotated.0).with_flags(Flags { zero: false, ..rotated.1 })
    }

    /// JP: fetch the target, and take it (one more cycle) if the condition holds.
    pub open spec fn jump_spec<B: Bus>(start: B, c: Cpu, done: Seq<BusOp>, condition: Option<Condition>) -> Progress {
        let (c1, d1, target) = Self::fetch16_spec(start, c, done);
        if taken_spec(condition, c1.regs.f) {
            (c1.with_pc(target), tick_ops(d1))
        } else {
            (c1, d1)
        }
    }

    /// JR: a signed displacement from the address after the operand.
    pub open spec fn jump_relative_spec<B: Bus>(start: B, c: Cpu, done: Seq<BusOp>, condition: Option<Condition>) -> Progress {
        let (c1, d1, byte) = Self::fetch8_spec(start, c, done);
        if taken_spec(condition, c1.regs.f) {
            (c1.with_pc(offset16(c1.regs.pc, byte as i8)), tick_ops(d1))
        } else {
            (c1, d1)
        }
    }

    /// CALL: fetch the target; if taken, push the return address and jump.
    pub open spec fn call_spec<B: Bus>(start: B, c: Cpu, done: Seq<BusOp>, condition: Option<Condition>) -> Progress {
        let (c1, d1, target) = Self::fetch16_spec(start, c, done);
        if taken_spec(condition, c1.regs.f) {
            let (c2, d2) = Self::push16_spec(c1, tick_ops(d1), c1.regs.pc);
            (c2.with_pc(target), d2)
        } else {
            (c1, d1)
        }
    }

    /// RET: a conditional one spends a cycle on the condition; taken, it pops PC and
    /// spends one more cycle.
    pub open spec fn ret_spec<B: Bus>(start: B, c: Cpu, done: Seq<BusOp>, condition: Option<Condition>) -> Progress {
        let d1 = if condition is Some {
            tick_ops(done)
        } else {
            done
        };
        if !taken_spec(condition, c.regs.f) {
            (c, d1)
        } else {
            let (c2, d2, target) = Self::pop16_spec(start, c, d1);
            (c2.with_pc(target), tick_ops(d2))
        }
    }

    /// HALT, including the bug: with IME off and an interrupt already pending, the CPU
    /// does not halt, and the next fetch fails to advance PC.
    pub open spec fn halt_spec<B: Bus>(start: B, c: Cpu, done: Seq<BusOp>) -> Cpu {
        if !c.ime && start.pending_after(done) is Some {
            Cpu { halt_bug: true, ..c }
        } else {
            Cpu { state: State::Halted, ..c }
        }
    }

    /// The `x=0` block, dispatched on `z` and `y`.
    pub open spec fn block0_spec<B: Bus>(start: B, c: Cpu, done: Seq<BusOp>, y: u8, z: u8) -> Progress {
        let p = y / 2;
        let q = y % 2;
        if z == 0 {
            if y == 0 {
                (c, done)
            } else if y == 1 {
                let (c1, d1, address) = Self::fetch16_spec(start, c, done);
                let d2 = write8_ops(d1, address, low_byte(c1.regs.sp));
                (c1, write8_ops(d2, inc16(address), high_byte(c1.regs.sp)))
            } else if y == 2 {
                let (c1, d1, _) = Self::fetch8_spec(start, c, done);
                (Cpu { state: State::Stopped, ..c1 }, d1)
            } else if y == 3 {
                Self::jump_relative_spec(start, c, done, None)
            } else {
                Self::jump_relative_spec(start, c, done, Some(Condition::from_bits_spec((y - 4) as u8)))
            }
        } else if z == 1 {
            if q == 0 {
                let (c1, d1, value) = Self::fetch16_spec(start, c, done);
                (c1.with_regs(c1.regs.set16_spec(reg16_sp_spec(p), value)), d1)
            } else {
                let (result, flags) = add16_spec(
                    c.regs.get16_spec(Reg16::HL),
                    c.regs.get16_spec(reg16_sp_spec(p)),
                    c.regs.f.zero,
                );
                (c.with_regs(c.regs.set16_spec(Reg16::HL, result)).with_flags(flags), tick_ops(done))
            }
        } else if z == 2 {
            let hl = c.regs.get16_spec(Reg16::HL);
            let (c1, address) = if p == 0 {
                (c, c.regs.get16_spec(Reg16::BC))
            } else if p == 1 {
                (c, c.regs.get16_spec(Reg16::DE))
            } else if p == 2 {
                (c.with_regs(c.regs.set16_spec(Reg16::HL, inc16(hl))), hl)
            } else {
                (c.with_regs(c.regs.set16_spec(Reg16::HL, dec16(hl))), hl)
            };
            if q == 0 {
                (c1, write8_ops(done, address, c1.regs.a))
            } else {
                let (value, d1) = read8_spec(start, done, address);
                (c1.with_a(value), d1)
            }
        } else if z == 3 {
            let reg = reg16_sp_spec(p);
            let value = c.regs.get16_spec(reg);
            let result = if q == 0 {
                inc16(value)
            } else {
                dec16(value)
            };
            (c.with_regs(c.regs.set16_spec(reg, result)), tick_ops(done))
        } else if z == 4 || z == 5 {
            let operand = Operand8::from_bits_spec(y);
            let (value, d1) = Self::read_operand_spec(start, c, done, operand);
            let (result, flags) = if z == 4 {
                inc_spec(value, c.regs.f.carry)
            } else {
                dec_spec(value, c.regs.f.carry)
            };
            let (c2, d2) = Self::write_operand_spec(c, d1, operand, result);
            (c2.with_flags(flags), d2)
        } else if z == 6 {
            let (c1, d1, value) = Self::fetch8_spec(start, c, done);
            Self::write_operand_spec(c1, d1, Operand8::from_bits_spec(y), value)
        } else {
            let f = c.regs.f;
            if y == 0 {
                (Self::rotate_a_spec(c, rlc_spec(c.regs.a)), done)
            } else if y == 1 {
                (Self::rotate_a_spec(c, rrc_spec(c.regs.a)), done)
            } else if y == 2 {
                (Self::rotate_a_spec(c, rl_spec(c.regs.a, f.carry)), done)
            } else if y == 3 {
                (Self::rotate_a_spec(c, rr_spec(c.regs.a, f.carry)), done)
            } else if y == 4 {
                let (result, flags) = daa_spec(c.regs.a, f);
                (c.with_a(result).with_flags(flags), done)
            } else if y == 5 {
                (c.with_a(!c.regs.a).with_flags(Flags { negative: true, half_carry: true, ..f }), done)
            } else if y == 6 {
                (c.with_flags(Flags { negative: false, half_carry: false, carry: true, ..f }), done)
            } else {
                (c.with_flags(Flags { negative: false, half_carry: false, carry: !f.carry, ..f }), done)
            }
        }
    }

    /// The CB-prefixed page: rotates and shifts, BIT, RES, SET.
    pub open spec fn cb_spec<B: Bus>(start: B, c: Cpu, done: Seq<BusOp>, opcode: u8) -> Progress {
        let x = field_x(opcode);
        let y = field_y(opcode);
        let operand = Operand8::from_bits_spec(opcode);
        let (value, d1) = Self::read_operand_spec(start, c, done, operand);
        let carry = c.regs.f.carry;
        if x == 0 {
            let (result, flags) = if y == 0 {
                rlc_spec(value)
            } else if y == 1 {
                rrc_spec(value)
            } else if y == 2 {
                rl_spec(value, carry)
            } else if y == 3 {
                rr_spec(value, carry)
            } else if y == 4 {
                sla_spec(value)
            } else if y == 5 {
                sra_spec(value)
            } else if y == 6 {
                swap_spec(value)
            } else {
                srl_spec(value)
            };
            let (c2, d2) = Self::write_operand_spec(c, d1, operand, result);
            (c2.with_flags(flags), d2)
        } else if x == 1 {
            (c.with_flags(bit_spec(value, y, carry)), d1)
        } else if x == 2 {
            Self::write_operand_spec(c, d1, operand, res_spec(value, y))
        } else {
            Self::write_operand_spec(c, d1, operand, set_spec(value, y))
        }
    }

    /// The `x=3` block: control flow, the stack, the high-page loads. Only defined for
    /// legal opcodes.
    pub open spec fn block3_spec<B: Bus>(start: B, c: Cpu, done: Seq<BusOp>, y: u8, z: u8) -> Progress {
        let p = y / 2;
        let q = y % 2;
        if z == 0 {
            if y < 4 {
                Self::ret_spec(start, c, done, Some(Condition::from_bits_spec(y)))
            } else if y == 4 {
                let (c1, d1, offset) = Self::fetch8_spec(start, c, done);
                (c1, write8_ops(d1, (0xFF00 + offset) as u16, c1.regs.a))
            } else if y == 6 {
                let (c1, d1, offset) = Self::fetch8_spec(start, c, done);
                let (value, d2) = read8_spec(start, d1, (0xFF00 + offset) as u16);
                (c1.with_a(value), d2)
            } else if y == 5 {
                let (c1, d1, byte) = Self::fetch8_spec(start, c, done);
                let (result, flags) = add_sp_offset_spec(c1.regs.sp, byte as i8);
                (c1.with_sp(result).with_flags(flags), tick_ops(tick_ops(d1)))
            } else {
                let (c1, d1, byte) = Self::fetch8_spec(start, c, done);
                let (result, flags) = add_sp_offset_spec(c1.regs.sp, byte as i8);
                (c1.with_regs(c1.regs.set16_spec(Reg16::HL, result)).with_flags(flags), tick_ops(d1))
            }
        } else if z == 1 {
            if q == 0 {
                let (c1, d1, value) = Self::pop16_spec(start, c, done);
                (c1.with_regs(c1.regs.set16_spec(reg16_af_spec(p), value)), d1)
            } else if p == 0 {
                Self::ret_spec(start, c, done, None)
            } else if p == 1 {
                let (c1, d1) = Self::ret_spec(start, c, done, None);
                (Cpu { ime: true, ..c1 }, d1)
            } else if p == 2 {
                (c.with_pc(c.regs.get16_spec(Reg16::HL)), done)
            } else {
                (c.with_sp(c.regs.get16_spec(Reg16::HL)), tick_ops(done))
            }
        } else if z == 2 {
            if y < 4 {
                Self::jump_spec(start, c, done, Some(Condition::from_bits_spec(y)))
            } else if y == 4 {
                (c, write8_ops(done, (0xFF00 + c.regs.c) as u16, c.regs.a))
            } else if y == 6 {
                let (value, d1) = read8_spec(start, done, (0xFF00 + c.regs.c) as u16);
                (c.with_a(value), d1)
            } else if y == 5 {
                let (c1, d1, address) = Self::fetch16_spec(start, c, done);
                (c1, write8_ops(d1, address, c1.regs.a))
            } else {
                let (c1, d1, address) = Self::fetch16_spec(start, c, done);
                let (value, d2) = read8_spec(start, d1, address);
                (c1.with_a(value), d2)
            }
        } else if z == 3 {
            if y == 0 {
                Self::jump_spec(start, c, done, None)
            } else if y == 1 {
                let (c1, d1, opcode) = Self::fetch8_spec(start, c, done);
                Self::cb_spec(start, c1, d1, opcode)
            } else if y == 6 {
                (Cpu { ime: false, ..c }, done)
            } else {
                (Cpu { ime_pending: true, ..c }, done)
            }
        } else if z == 4 {
            Self::call_spec(start, c, done, Some(Condition::from_bits_spec(y)))
        } else if z == 5 {
            if q == 0 {
                let value = c.regs.get16_spec(reg16_af_spec(p));
                Self::push16_spec(c, tick_ops(done), value)
            } else {
                Self::call_spec(start, c, done, None)
            }
        } else if z == 6 {
            let (c1, d1, value) = Self::fetch8_spec(start, c, done);
            (Self::alu_op_spec(c1, y, value), d1)
        } else {
            let (c1, d1) = Self::push16_spec(c, tick_ops(done), c.regs.pc);
            (c1.with_pc((y as int * 8) as u16), d1)
        }
    }

    /// One decoded instruction, its opcode already fetched.
    pub open spec fn execute_spec<B: Bus>(start: B, c: Cpu, done: Seq<BusOp>, opcode: u8) -> Progress {
        let x = field_x(opcode);
        let y = field_y(opcode);
        let z = field_z(opcode);
        if x == 0 {
            Self::block0_spec(start, c, done, y, z)
        } else if x == 1 {
            if opcode == 0x76 {
                (Self::halt_spec(start, c, done), done)
            } else {
                let (value, d1) = Self::read_operand_spec(start, c, done, Operand8::from_bits_spec(z));
                Self::write_operand_spec(c, d1, Operand8::from_bits_spec(y), value)
            }
        } else if x == 2 {
            let (value, d1) = Self::read_operand_spec(start, c, done, Operand8::from_bits_spec(z));
            (Self::alu_op_spec(c, y, value), d1)
        } else {
            Self::block3_spec(start, c, done, y, z)
        }
    }

    /// Interrupt dispatch: IME off, the source's `IF` bit cleared, two idle cycles,
    /// PC pushed, and one more cycle to jump to the handler — five in all.
    pub open spec fn dispatch_spec(c: Cpu, done: Seq<BusOp>, interrupt: Interrupt) -> Progress {
        let c1 = Cpu { ime: false, ..c };
        let d1 = tick_ops(tick_ops(done.push(BusOp::Acknowledge(interrupt))));
        let (c2, d2) = Self::push16_spec(c1, d1, c1.regs.pc);
        (c2.with_pc(interrupt.handler_spec()), tick_ops(d2))
    }

    /// What one call of [`Cpu::step`] does, starting from `c` with the bus `start`:
    /// the CPU afterwards, the bus operations it performs, and whether the opcode it
    /// met was a real instruction.
    #[verifier::opaque]
    pub open spec fn step_spec<B: Bus>(start: B, c: Cpu) -> (Cpu, Seq<BusOp>, bool) {
        let done = Seq::<BusOp>::empty();
        let pending = start.pending_after(done);
        let (c1, d1, legal) = match c.state {
            State::Stopped => (c, tick_ops(done), true),
            State::Halted => if pending is Some {
                let woken = Cpu { state: State::Running, ..c };
                if c.ime {
                    let (c2, d2) = Self::dispatch_spec(woken, done, pending->0);
                    (c2, d2, true)
                } else {
                    (woken, tick_ops(done), true)
                }
            } else {
                (c, tick_ops(done), true)
            },
            State::Running => if c.ime && pending is Some {
                let (c2, d2) = Self::dispatch_spec(c, done, pending->0);
                (c2, d2, true)
            } else {
                let (c2, d2, opcode) = Self::fetch8_spec(start, c, done);
                if is_illegal(opcode) {
                    (c2, d2, false)
                } else {
                    let (c3, d3) = Self::execute_spec(start, c2, d2, opcode);
                    (c3, d3, true)
                }
            },
        };
        let c_final = if c.ime_pending {
            Cpu { ime: true, ime_pending: false, ..c1 }
        } else {
            c1
        };
        (c_final, d1, legal)
    }

    /// The opcode a running CPU with no interrupt to take fetches next.
    pub open spec fn next_opcode_spec<B: Bus>(start: B, c: Cpu) -> u8 {
        Self::fetch8_spec(start, c, Seq::<BusOp>::empty()).2
    }

    /// A CPU in the state the boot ROM leaves behind, ready to execute at 0x0100.
    pub fn new() -> (r: Self)
        ensures
            r == Self::initial(),
    {
        Cpu {
            regs: Registers::post_boot_dmg(),
            state: State::Running,
            ime: false,
            ime_pending: false,
            halt_bug: false,
        }
    }

    // --- Memory helpers. Each access is one M-cycle. ---
    fn tick_bus<B: Bus>(bus: &mut B, Ghost(start): Ghost<B>, Ghost(done): Ghost<Seq<BusOp>>)
        requires
            behaves_as(*old(bus), start, done),
        ensures
            behaves_as(*final(bus), start, tick_ops(done)),
    {
        let ghost before = *bus;
        bus.tick();
        proof {
            lemma_behaves_as_step(*bus, before, start, done, BusOp::Tick);
        }
    }

    fn read8<B: Bus>(bus: &mut B, address: u16, Ghost(start): Ghost<B>, Ghost(done): Ghost<Seq<BusOp>>) -> (r: u8)
        requires
            behaves_as(*old(bus), start, done),
        ensures
            r == read8_spec(start, done, address).0,
            behaves_as(*final(bus), start, read8_spec(start, done, address).1),
    {
        Self::tick_bus(bus, Ghost(start), Ghost(done));
        let ghost before = *bus;
        let value = bus.read(address);
        proof {
            lemma_behaves_as_now(before, start, tick_ops(done), address);
            lemma_behaves_as_step(*bus, before, start, tick_ops(done), BusOp::Read(address));
        }
        value
    }

    fn write8<B: Bus>(bus: &mut B, address: u16, value: u8, Ghost(start): Ghost<B>, Ghost(done): Ghost<Seq<BusOp>>)
        requires
            behaves_as(*old(bus), start, done),
        ensures
            behaves_as(*final(bus), start, write8_ops(done, address, value)),
    {
        Self::tick_bus(bus, Ghost(start), Ghost(done));
        let ghost before = *bus;
        bus.write(address, value);
        proof {
            lemma_behaves_as_step(*bus, before, start, tick_ops(done), BusOp::Write(address, value));
        }
    }

    /// Reads the byte at PC and advances past it.
    fn fetch8<B: Bus>(&mut self, bus: &mut B, Ghost(start): Ghost<B>, Ghost(done): Ghost<Seq<BusOp>>) -> (r: u8)
        requires
            behaves_as(*old(bus), start, done),
        ensures
            ({
                let (c, ops, value) = Self::fetch8_spec(start, *old(self), done);
                *final(self) == c && r == value && behaves_as(*final(bus), start, ops)
            }),
    {
        let value = Self::read8(bus, self.regs.pc, Ghost(start), Ghost(done));
        if self.halt_bug {
            self.halt_bug = false;
        } else {
            self.regs.pc = ((self.regs.pc as u32 + 1) % 65536) as u16;
        }
        value
    }

    /// Reads a little-endian 16-bit immediate. Two M-cycles.
    fn fetch16<B: Bus>(&mut self, bus: &mut B, Ghost(start): Ghost<B>, Ghost(done): Ghost<Seq<BusOp>>) -> (r: u16)
        requires
            behaves_as(*old(bus), start, done),
        ensures
            ({
                let (c, ops, value) = Self::fetch16_spec(start, *old(self), done);
                *final(self) == c && r == value && behaves_as(*final(bus), start, ops)
            }),
    {
        let ghost c0 = *self;
        let lo = self.fetch8(bus, Ghost(start), Ghost(done));
        let ghost d1 = Self::fetch8_spec(start, c0, done).1;
        let hi = self.fetch8(bus, Ghost(start), Ghost(d1));
        join_u16(hi, lo)
    }

    fn read_operand<B: Bus>(&mut self, bus: &mut B, operand: Operand8, Ghost(start): Ghost<B>, Ghost(done): Ghost<Seq<BusOp>>) -> (r: u8)
        requires
            behaves_as(*old(bus), start, done),
        ensures
            *final(self) == *old(self),
            r == Self::read_operand_spec(start, *old(self), done, operand).0,
            behaves_as(*final(bus), start, Self::read_operand_spec(start, *old(self), done, operand).1),
    {
        match operand {
            Operand8::Reg(reg) => self.regs.get8(reg),
            Operand8::MemHl => {
                let address = self.regs.get16(Reg16::HL);
                Self::read8(bus, address, Ghost(start), Ghost(done))
            },
        }
    }

    fn write_operand<B: Bus>(&mut self, bus: &mut B, operand: Operand8, value: u8, Ghost(start): Ghost<B>, Ghost(done): Ghost<Seq<BusOp>>)
        requires
            behaves_as(*old(bus), start, done),
        ensures
            ({
                let (c, ops) = Self::write_operand_spec(*old(self), done, operand, value);
                *final(self) == c && behaves_as(*final(bus), start, ops)
            }),
    {
        match operand {
            Operand8::Reg(reg) => self.regs.set8(reg, value),
            Operand8::MemHl => {
                let address = self.regs.get16(Reg16::HL);
                Self::write8(bus, address, value, Ghost(start), Ghost(done));
            },
        }
    }

    fn push16<B: Bus>(&mut self, bus: &mut B, value: u16, Ghost(start): Ghost<B>, Ghost(done): Ghost<Seq<BusOp>>)
        requires
            behaves_as(*old(bus), start, done),
        ensures
            ({
                let (c, ops) = Self::push16_spec(*old(self), done, value);
                *final(self) == c && behaves_as(*final(bus), start, ops)
            }),
    {
        let (hi, lo) = split_u16(value);
        // The stack grows downward, and the high byte is pushed first.
        self.regs.sp = ((self.regs.sp as u32 + 65535) % 65536) as u16;
        Self::write8(bus, self.regs.sp, hi, Ghost(start), Ghost(done));
        let ghost d1 = write8_ops(done, self.regs.sp, hi);
        self.regs.sp = ((self.regs.sp as u32 + 65535) % 65536) as u16;
        Self::write8(bus, self.regs.sp, lo, Ghost(start), Ghost(d1));
    }

    fn pop16<B: Bus>(&mut self, bus: &mut B, Ghost(start): Ghost<B>, Ghost(done): Ghost<Seq<BusOp>>) -> (r: u16)
        requires
            behaves_as(*old(bus), start, done),
        ensures
            ({
                let (c, ops, value) = Self::pop16_spec(start, *old(self), done);
                *final(self) == c && r == value && behaves_as(*final(bus), start, ops)
            }),
    {
        let lo = Self::read8(bus, self.regs.sp, Ghost(start), Ghost(done));
        let ghost d1 = read8_spec(start, done, self.regs.sp).1;
        self.regs.sp = ((self.regs.sp as u32 + 1) % 65536) as u16;
        let hi = Self::read8(bus, self.regs.sp, Ghost(start), Ghost(d1));
        self.regs.sp = ((self.regs.sp as u32 + 1) % 65536) as u16;
        join_u16(hi, lo)
    }

    /// The eight ALU operations selected by the `y` field: ADD, ADC, SUB, SBC, AND,
    /// XOR, OR, CP — in that order, in both the register and immediate blocks.
    fn alu_op(&mut self, op: u8, value: u8)
        ensures
            *final(self) == Self::alu_op_spec(*old(self), op, value),
    {
        let a = self.regs.a;
        let carry = self.regs.f.carry;
        let (result, flags) = if op == 0 {
            alu::add(a, value, false)
        } else if op == 1 {
            alu::add(a, value, carry)
        } else if op == 2 {
            alu::sub(a, value, false)
        } else if op == 3 {
            alu::sub(a, value, carry)
        } else if op == 4 {
            alu::and(a, value)
        } else if op == 5 {
            alu::xor(a, value)
        } else if op == 6 {
            alu::or(a, value)
        } else {
            // CP discards the result and keeps only the flags.
            (a, alu::cp(a, value))
        };
        self.regs.a = result;
        self.regs.f = flags;
    }

    /// RLCA/RRCA/RLA/RRA always clear Z, even when the result is zero. Their
    /// CB-prefixed equivalents set it normally — an inconsistency in the ISA, not a
    /// mistake here.
    fn rotate_a(&mut self, rotated: (u8, Flags))
        ensures
            *final(self) == Self::rotate_a_spec(*old(self), rotated),
    {
        let (result, flags) = rotated;
        self.regs.a = result;
        self.regs.f = Flags { zero: false, ..flags };
    }

    fn jump<B: Bus>(&mut self, bus: &mut B, condition: Option<Condition>, Ghost(start): Ghost<B>, Ghost(done): Ghost<Seq<BusOp>>)
        requires
            behaves_as(*old(bus), start, done),
        ensures
            ({
                let (c, ops) = Self::jump_spec(start, *old(self), done, condition);
                *final(self) == c && behaves_as(*final(bus), start, ops)
            }),
    {
        let ghost c0 = *self;
        let target = self.fetch16(bus, Ghost(start), Ghost(done));
        let ghost d1 = Self::fetch16_spec(start, c0, done).1;
        let taken = match condition {
            Some(c) => c.holds(self.regs.f),
            None => true,
        };
        if taken {
            // A taken jump costs one more cycle than a skipped one.
            Self::tick_bus(bus, Ghost(start), Ghost(d1));
            self.regs.pc = target;
        }
    }

    fn jump_relative<B: Bus>(&mut self, bus: &mut B, condition: Option<Condition>, Ghost(start): Ghost<B>, Ghost(done): Ghost<Seq<BusOp>>)
        requires
            behaves_as(*old(bus), start, done),
        ensures
            ({
                let (c, ops) = Self::jump_relative_spec(start, *old(self), done, condition);
                *final(self) == c && behaves_as(*final(bus), start, ops)
            }),
    {
        let ghost c0 = *self;
        let byte = self.fetch8(bus, Ghost(start), Ghost(done));
        let ghost d1 = Self::fetch8_spec(start, c0, done).1;
        let offset = byte as i8;
        let taken = match condition {
            Some(c) => c.holds(self.regs.f),
            None => true,
        };
        if taken {
            Self::tick_bus(bus, Ghost(start), Ghost(d1));
            let moved: i32 = self.regs.pc as i32 + offset as i32 + 65536;
            proof {
                vstd::arithmetic::div_mod::lemma_mod_add_multiples_vanish(self.regs.pc + offset, 65536);
            }
            self.regs.pc = (moved % 65536) as u16;
        }
    }

    fn call<B: Bus>(&mut self, bus: &mut B, condition: Option<Condition>, Ghost(start): Ghost<B>, Ghost(done): Ghost<Seq<BusOp>>)
        requires
            behaves_as(*old(bus), start, done),
        ensures
            ({
                let (c, ops) = Self::call_spec(start, *old(self), done, condition);
                *final(self) == c && behaves_as(*final(bus), start, ops)
            }),
    {
        let ghost c0 = *self;
        let target = self.fetch16(bus, Ghost(start), Ghost(done));
        let ghost d1 = Self::fetch16_spec(start, c0, done).1;
        let taken = match condition {
            Some(c) => c.holds(self.regs.f),
            None => true,
        };
        if taken {
            Self::tick_bus(bus, Ghost(start), Ghost(d1));
            let pc = self.regs.pc;
            self.push16(bus, pc, Ghost(start), Ghost(tick_ops(d1)));
            self.regs.pc = target;
        }
    }

    fn ret<B: Bus>(&mut self, bus: &mut B, condition: Option<Condition>, Ghost(start): Ghost<B>, Ghost(done): Ghost<Seq<BusOp>>)
        requires
            behaves_as(*old(bus), start, done),
        ensures
            ({
                let (c, ops) = Self::ret_spec(start, *old(self), done, condition);
                *final(self) == c && behaves_as(*final(bus), start, ops)
            }),
    {
        let ghost mut d1 = done;
        if let Some(condition) = condition {
            // Conditional RET spends a cycle evaluating the condition, whether or
            // not it is taken.
            Self::tick_bus(bus, Ghost(start), Ghost(done));
            proof {
                d1 = tick_ops(done);
            }
            if !condition.holds(self.regs.f) {
                return;
            }
        }
        let ghost c1 = *self;
        let target = self.pop16(bus, Ghost(start), Ghost(d1));
        let ghost d2 = Self::pop16_spec(start, c1, d1).1;
        self.regs.pc = target;
        Self::tick_bus(bus, Ghost(start), Ghost(d2));
    }

    fn halt<B: Bus>(&mut self, bus: &B, Ghost(start): Ghost<B>, Ghost(done): Ghost<Seq<BusOp>>)
        requires
            behaves_as(*bus, start, done),
        ensures
            *final(self) == Self::halt_spec(start, *old(self), done),
    {
        proof {
            lemma_behaves_as_now(*bus, start, done, 0);
        }
        if !self.ime && bus.pending_interrupt().is_some() {
            // With IME off and an interrupt already waiting, HALT does not halt at
            // all, and PC fails to advance on the next fetch.
            self.halt_bug = true;
        } else {
            self.state = State::Halted;
        }
    }

    /// Maps the 2-bit register-pair field to a register, treating slot 3 as SP.
    /// Used by most 16-bit instructions.
    fn reg16_sp(bits: u8) -> (r: Reg16)
        ensures
            r == reg16_sp_spec(bits),
    {
        let slot = bits % 4;
        if slot == 0 {
            Reg16::BC
        } else if slot == 1 {
            Reg16::DE
        } else if slot == 2 {
            Reg16::HL
        } else {
            Reg16::SP
        }
    }

    /// Same field, but PUSH and POP use slot 3 for AF instead of SP.
    fn reg16_af(bits: u8) -> (r: Reg16)
        ensures
            r == reg16_af_spec(bits),
    {
        let slot = bits % 4;
        if slot == 0 {
            Reg16::BC
        } else if slot == 1 {
            Reg16::DE
        } else if slot == 2 {
            Reg16::HL
        } else {
            Reg16::AF
        }
    }

    /// The `x=0` block: a grab bag, dispatched on `z`.
    #[verifier::spinoff_prover]
    #[verifier::rlimit(60)]
    fn execute_block0<B: Bus>(&mut self, bus: &mut B, y: u8, z: u8, Ghost(start): Ghost<B>, Ghost(done): Ghost<Seq<BusOp>>)
        requires
            behaves_as(*old(bus), start, done),
            y < 8,
            z < 8,
        ensures
            ({
                let (c, ops) = Self::block0_spec(start, *old(self), done, y, z);
                *final(self) == c && behaves_as(*final(bus), start, ops)
            }),
    {
        let p = y / 2;
        let q = y % 2;
        let ghost c0 = *self;
        if z == 0 {
            if y == 0 {
                // NOP
            } else if y == 1 {
                // LD (nn), SP — the only instruction that writes SP to memory.
                let address = self.fetch16(bus, Ghost(start), Ghost(done));
                let ghost d1 = Self::fetch16_spec(start, c0, done).1;
                let (hi, lo) = split_u16(self.regs.sp);
                Self::write8(bus, address, lo, Ghost(start), Ghost(d1));
                let next = ((address as u32 + 1) % 65536) as u16;
                Self::write8(bus, next, hi, Ghost(start), Ghost(write8_ops(d1, address, lo)));
            } else if y == 2 {
                // STOP is a two-byte instruction: the second byte is ignored but skipped.
                self.fetch8(bus, Ghost(start), Ghost(done));
                self.state = State::Stopped;
            } else if y == 3 {
                self.jump_relative(bus, None, Ghost(start), Ghost(done));
            } else {
                let condition = Condition::from_bits(y - 4);
                self.jump_relative(bus, Some(condition), Ghost(start), Ghost(done));
            }
        } else if z == 1 {
            if q == 0 {
                // LD rr, nn
                let value = self.fetch16(bus, Ghost(start), Ghost(done));
                self.regs.set16(Self::reg16_sp(p), value);
            } else {
                // ADD HL, rr — one extra cycle for the 16-bit add.
                let hl = self.regs.get16(Reg16::HL);
                let operand = self.regs.get16(Self::reg16_sp(p));
                let (result, flags) = alu::add16(hl, operand, self.regs.f.zero);
                Self::tick_bus(bus, Ghost(start), Ghost(done));
                self.regs.set16(Reg16::HL, result);
                self.regs.f = flags;
            }
        } else if z == 2 {
            // Indirect loads through a register pair, both directions.
            let address = if p == 0 {
                self.regs.get16(Reg16::BC)
            } else if p == 1 {
                self.regs.get16(Reg16::DE)
            } else {
                // LD (HL+) / LD (HL-): use HL, then step it. These exist because
                // copying blocks of memory is so common.
                let hl = self.regs.get16(Reg16::HL);
                let next = if p == 2 {
                    ((hl as u32 + 1) % 65536) as u16
                } else {
                    ((hl as u32 + 65535) % 65536) as u16
                };
                self.regs.set16(Reg16::HL, next);
                hl
            };
            if q == 0 {
                let a = self.regs.a;
                Self::write8(bus, address, a, Ghost(start), Ghost(done));
            } else {
                self.regs.a = Self::read8(bus, address, Ghost(start), Ghost(done));
            }
        } else if z == 3 {
            // INC rr / DEC rr — no flags at all, since these use the IDU rather than
            // the ALU. One extra cycle.
            let reg = Self::reg16_sp(p);
            let value = self.regs.get16(reg);
            let result = if q == 0 {
                ((value as u32 + 1) % 65536) as u16
            } else {
                ((value as u32 + 65535) % 65536) as u16
            };
            Self::tick_bus(bus, Ghost(start), Ghost(done));
            self.regs.set16(reg, result);
        } else if z == 4 || z == 5 {
            // INC r / DEC r — 8-bit, and these *do* set flags (except carry).
            let operand = Operand8::from_bits(y);
            let value = self.read_operand(bus, operand, Ghost(start), Ghost(done));
            let ghost d1 = Self::read_operand_spec(start, c0, done, operand).1;
            let (result, flags) = if z == 4 {
                alu::inc(value, self.regs.f.carry)
            } else {
                alu::dec(value, self.regs.f.carry)
            };
            self.write_operand(bus, operand, result, Ghost(start), Ghost(d1));
            self.regs.f = flags;
        } else if z == 6 {
            // LD r, n
            let value = self.fetch8(bus, Ghost(start), Ghost(done));
            let ghost d1 = Self::fetch8_spec(start, c0, done).1;
            self.write_operand(bus, Operand8::from_bits(y), value, Ghost(start), Ghost(d1));
        } else {
            // Accumulator and flag operations. The four rotates of A always clear Z,
            // unlike their CB-prefixed counterparts which set it from the result.
            let carry = self.regs.f.carry;
            if y == 0 {
                self.rotate_a(alu::rlc(self.regs.a));
            } else if y == 1 {
                self.rotate_a(alu::rrc(self.regs.a));
            } else if y == 2 {
                self.rotate_a(alu::rl(self.regs.a, carry));
            } else if y == 3 {
                self.rotate_a(alu::rr(self.regs.a, carry));
            } else if y == 4 {
                let (result, flags) = alu::daa(self.regs.a, self.regs.f);
                self.regs.a = result;
                self.regs.f = flags;
            } else if y == 5 {
                // CPL: complement A, set N and H, leave Z and C alone.
                self.regs.a = !self.regs.a;
                self.regs.f.negative = true;
                self.regs.f.half_carry = true;
            } else if y == 6 {
                // SCF
                self.regs.f.negative = false;
                self.regs.f.half_carry = false;
                self.regs.f.carry = true;
            } else {
                // CCF
                self.regs.f.negative = false;
                self.regs.f.half_carry = false;
                self.regs.f.carry = !self.regs.f.carry;
            }
        }
    }

    /// The CB-prefixed page: rotates, shifts, and bit operations.
    ///
    /// Far more regular than the main page. `x` selects the group and, for the bit
    /// operations, `y` is the bit index.
    fn execute_cb<B: Bus>(&mut self, bus: &mut B, opcode: u8, Ghost(start): Ghost<B>, Ghost(done): Ghost<Seq<BusOp>>)
        requires
            behaves_as(*old(bus), start, done),
        ensures
            ({
                let (c, ops) = Self::cb_spec(start, *old(self), done, opcode);
                *final(self) == c && behaves_as(*final(bus), start, ops)
            }),
    {
        let x = opcode / 64;
        let y = (opcode / 8) % 8;
        let operand = Operand8::from_bits(opcode);
        let ghost c0 = *self;
        let value = self.read_operand(bus, operand, Ghost(start), Ghost(done));
        let ghost d1 = Self::read_operand_spec(start, c0, done, operand).1;
        let carry = self.regs.f.carry;

        if x == 0 {
            // x=0: the eight shift and rotate operations.
            let (result, flags) = if y == 0 {
                alu::rlc(value)
            } else if y == 1 {
                alu::rrc(value)
            } else if y == 2 {
                alu::rl(value, carry)
            } else if y == 3 {
                alu::rr(value, carry)
            } else if y == 4 {
                alu::sla(value)
            } else if y == 5 {
                alu::sra(value)
            } else if y == 6 {
                alu::swap(value)
            } else {
                alu::srl(value)
            };
            self.write_operand(bus, operand, result, Ghost(start), Ghost(d1));
            self.regs.f = flags;
        } else if x == 1 {
            // BIT only tests, so there is no writeback — and so it is one cycle
            // cheaper than RES/SET when operating on (HL).
            self.regs.f = alu::bit(value, y, carry);
        } else if x == 2 {
            let result = alu::res(value, y);
            self.write_operand(bus, operand, result, Ghost(start), Ghost(d1));
        } else {
            let result = alu::set(value, y);
            self.write_operand(bus, operand, result, Ghost(start), Ghost(d1));
        }
    }

    /// The `x=3` block: control flow, the stack, and the high-memory loads.
    fn execute_block3<B: Bus>(&mut self, bus: &mut B, y: u8, z: u8, Ghost(start): Ghost<B>, Ghost(done): Ghost<Seq<BusOp>>)
        requires
            behaves_as(*old(bus), start, done),
            y < 8,
            z < 8,
            !((z == 3 && 2 <= y <= 5) || (z == 4 && y >= 4) || (z == 5 && y % 2 == 1 && y / 2 != 0)),
        ensures
            ({
                let (c, ops) = Self::block3_spec(start, *old(self), done, y, z);
                *final(self) == c && behaves_as(*final(bus), start, ops)
            }),
    {
        let p = y / 2;
        let q = y % 2;
        let ghost c0 = *self;
        if z == 0 {
            if y < 4 {
                self.ret(bus, Some(Condition::from_bits(y)), Ghost(start), Ghost(done));
            } else if y == 4 {
                // LDH (n), A: the 0xFF00 page holds the I/O registers, so a one-byte
                // offset covers all of them.
                let offset = self.fetch8(bus, Ghost(start), Ghost(done));
                let ghost d1 = Self::fetch8_spec(start, c0, done).1;
                let a = self.regs.a;
                Self::write8(bus, 0xFF00 + offset as u16, a, Ghost(start), Ghost(d1));
            } else if y == 6 {
                // LDH A, (n)
                let offset = self.fetch8(bus, Ghost(start), Ghost(done));
                let ghost d1 = Self::fetch8_spec(start, c0, done).1;
                self.regs.a = Self::read8(bus, 0xFF00 + offset as u16, Ghost(start), Ghost(d1));
            } else if y == 5 {
                // ADD SP, e. Two extra cycles: the 16-bit result is assembled a byte at
                // a time.
                let byte = self.fetch8(bus, Ghost(start), Ghost(done));
                let ghost d1 = Self::fetch8_spec(start, c0, done).1;
                let (result, flags) = alu::add_sp_offset(self.regs.sp, byte as i8);
                Self::tick_bus(bus, Ghost(start), Ghost(d1));
                Self::tick_bus(bus, Ghost(start), Ghost(tick_ops(d1)));
                self.regs.sp = result;
                self.regs.f = flags;
            } else {
                // LD HL, SP+e — same arithmetic, one fewer cycle.
                let byte = self.fetch8(bus, Ghost(start), Ghost(done));
                let ghost d1 = Self::fetch8_spec(start, c0, done).1;
                let (result, flags) = alu::add_sp_offset(self.regs.sp, byte as i8);
                Self::tick_bus(bus, Ghost(start), Ghost(d1));
                self.regs.set16(Reg16::HL, result);
                self.regs.f = flags;
            }
        } else if z == 1 {
            if q == 0 {
                let value = self.pop16(bus, Ghost(start), Ghost(done));
                self.regs.set16(Self::reg16_af(p), value);
            } else if p == 0 {
                self.ret(bus, None, Ghost(start), Ghost(done));
            } else if p == 1 {
                // RETI: return and re-enable interrupts immediately — no
                // one-instruction delay, unlike EI.
                self.ret(bus, None, Ghost(start), Ghost(done));
                self.ime = true;
            } else if p == 2 {
                // JP HL. The only jump with no memory access, so no extra cycle.
                self.regs.pc = self.regs.get16(Reg16::HL);
            } else {
                // LD SP, HL
                Self::tick_bus(bus, Ghost(start), Ghost(done));
                self.regs.sp = self.regs.get16(Reg16::HL);
            }
        } else if z == 2 {
            if y < 4 {
                self.jump(bus, Some(Condition::from_bits(y)), Ghost(start), Ghost(done));
            } else if y == 4 {
                // LD (C), A / LD A, (C): like LDH but the offset comes from C.
                let address = 0xFF00 + self.regs.c as u16;
                let a = self.regs.a;
                Self::write8(bus, address, a, Ghost(start), Ghost(done));
            } else if y == 6 {
                let address = 0xFF00 + self.regs.c as u16;
                self.regs.a = Self::read8(bus, address, Ghost(start), Ghost(done));
            } else if y == 5 {
                // LD (nn), A
                let address = self.fetch16(bus, Ghost(start), Ghost(done));
                let ghost d1 = Self::fetch16_spec(start, c0, done).1;
                let a = self.regs.a;
                Self::write8(bus, address, a, Ghost(start), Ghost(d1));
            } else {
                // LD A, (nn)
                let address = self.fetch16(bus, Ghost(start), Ghost(done));
                let ghost d1 = Self::fetch16_spec(start, c0, done).1;
                self.regs.a = Self::read8(bus, address, Ghost(start), Ghost(d1));
            }
        } else if z == 3 {
            if y == 0 {
                self.jump(bus, None, Ghost(start), Ghost(done));
            } else if y == 1 {
                // 0xCB: the prefix that opens the second instruction page.
                let opcode = self.fetch8(bus, Ghost(start), Ghost(done));
                let ghost c1 = Self::fetch8_spec(start, c0, done).0;
                let ghost d1 = Self::fetch8_spec(start, c0, done).1;
                self.execute_cb(bus, opcode, Ghost(start), Ghost(d1));
            } else if y == 6 {
                // DI takes effect immediately.
                self.ime = false;
            } else {
                // EI is deferred one instruction.
                self.ime_pending = true;
            }
        } else if z == 4 {
            self.call(bus, Some(Condition::from_bits(y)), Ghost(start), Ghost(done));
        } else if z == 5 {
            if q == 0 {
                let value = self.regs.get16(Self::reg16_af(p));
                // PUSH costs an extra cycle over POP for the internal decrement.
                Self::tick_bus(bus, Ghost(start), Ghost(done));
                self.push16(bus, value, Ghost(start), Ghost(tick_ops(done)));
            } else {
                self.call(bus, None, Ghost(start), Ghost(done));
            }
        } else if z == 6 {
            // The ALU ops against an immediate byte.
            let value = self.fetch8(bus, Ghost(start), Ghost(done));
            self.alu_op(y, value);
        } else {
            // RST n: a one-byte call to a fixed low address. Interrupt handlers and
            // size-constrained code use these.
            Self::tick_bus(bus, Ghost(start), Ghost(done));
            let pc = self.regs.pc;
            self.push16(bus, pc, Ghost(start), Ghost(tick_ops(done)));
            self.regs.pc = y as u16 * 8;
        }
    }

    /// Executes one instruction whose opcode has been fetched.
    fn execute<B: Bus>(&mut self, bus: &mut B, opcode: u8, Ghost(start): Ghost<B>, Ghost(done): Ghost<Seq<BusOp>>)
        requires
            behaves_as(*old(bus), start, done),
            !is_illegal(opcode),
        ensures
            ({
                let (c, ops) = Self::execute_spec(start, *old(self), done, opcode);
                *final(self) == c && behaves_as(*final(bus), start, ops)
            }),
    {
        // The xxyyyzzz split described in the module docs.
        let x = opcode / 64;
        let y = (opcode / 8) % 8;
        let z = opcode % 8;
        proof {
            lemma_illegal_fields(opcode);
        }
        let ghost c0 = *self;
        if x == 0 {
            self.execute_block0(bus, y, z, Ghost(start), Ghost(done));
        } else if x == 1 {
            if opcode == 0x76 {
                // 0x76 would be LD (HL), (HL), which is meaningless; the hardware uses
                // that slot for HALT.
                self.halt(bus, Ghost(start), Ghost(done));
            } else {
                // LD r, r' — the whole 8-bit register-to-register block.
                let value = self.read_operand(bus, Operand8::from_bits(z), Ghost(start), Ghost(done));
                let ghost d1 = Self::read_operand_spec(start, c0, done, Operand8::from_bits_spec(z)).1;
                self.write_operand(bus, Operand8::from_bits(y), value, Ghost(start), Ghost(d1));
            }
        } else if x == 2 {
            // ALU op with a register operand.
            let value = self.read_operand(bus, Operand8::from_bits(z), Ghost(start), Ghost(done));
            self.alu_op(y, value);
        } else {
            self.execute_block3(bus, y, z, Ghost(start), Ghost(done));
        }
    }

    /// Services an interrupt: the `IF` bit is cleared, two idle cycles pass, PC is
    /// pushed, and one more cycle lands on the handler. Five M-cycles in all.
    fn dispatch<B: Bus>(&mut self, bus: &mut B, interrupt: Interrupt, Ghost(start): Ghost<B>, Ghost(done): Ghost<Seq<BusOp>>)
        requires
            behaves_as(*old(bus), start, done),
        ensures
            ({
                let (c, ops) = Self::dispatch_spec(*old(self), done, interrupt);
                *final(self) == c && behaves_as(*final(bus), start, ops)
            }),
    {
        // IME is cleared so the handler is not re-entered.
        self.ime = false;
        let ghost before = *bus;
        bus.acknowledge_interrupt(interrupt);
        proof {
            lemma_behaves_as_step(*bus, before, start, done, BusOp::Acknowledge(interrupt));
        }
        let ghost d1 = done.push(BusOp::Acknowledge(interrupt));
        Self::tick_bus(bus, Ghost(start), Ghost(d1));
        Self::tick_bus(bus, Ghost(start), Ghost(tick_ops(d1)));
        let pc = self.regs.pc;
        self.push16(bus, pc, Ghost(start), Ghost(tick_ops(tick_ops(d1))));
        let ghost d2 = Self::push16_spec(Cpu { ime: false, ..*old(self) }, tick_ops(tick_ops(d1)), pc).1;
        Self::tick_bus(bus, Ghost(start), Ghost(d2));
        self.regs.pc = interrupt.handler();
    }

    /// Executes one instruction, ticking the bus for every cycle it consumes.
    ///
    /// Before fetching, a pending interrupt is dispatched if IME allows it. When
    /// halted, burns a single M-cycle instead — the caller keeps calling this and the
    /// timer keeps running, which is what eventually produces the interrupt that wakes
    /// it; a pending interrupt wakes a halted CPU even with IME off, but is dispatched
    /// only with IME on.
    ///
    /// An opcode that is not an instruction is reported as an error, with the CPU left
    /// just past it.
    pub fn step<B: Bus>(&mut self, bus: &mut B) -> (r: Result<(), IllegalOpcode>)
        requires
            old(bus).ready(),
        ensures
            final(bus).ready(),
            ({
                let (c, ops, legal) = Self::step_spec(*old(bus), *old(self));
                &&& *final(self) == c
                &&& behaves_as(*final(bus), *old(bus), ops)
                &&& (r is Ok <==> legal)
                &&& (r matches Err(e) ==> e.opcode == Self::next_opcode_spec(*old(bus), *old(self))
                    && e.address == old(self).regs.pc)
            }),
    {
        proof {
            reveal(Cpu::step_spec);
        }
        let ghost start = *bus;
        let ghost c0 = *self;
        let ghost done = Seq::<BusOp>::empty();
        proof {
            lemma_behaves_as_itself(start);
            lemma_behaves_as_now(start, start, done, 0);
        }
        // EI's effect lands after the next instruction, so latch the request now and
        // apply it once this instruction has run.
        let enabling_ime = self.ime_pending;
        let pending = bus.pending_interrupt();
        let mut result = Ok(());

        match self.state {
            State::Stopped => {
                Self::tick_bus(bus, Ghost(start), Ghost(done));
            },
            State::Halted => {
                if let Some(interrupt) = pending {
                    // A pending interrupt wakes the CPU whether or not IME is set.
                    self.state = State::Running;
                    if self.ime {
                        self.dispatch(bus, interrupt, Ghost(start), Ghost(done));
                    } else {
                        // The wake itself consumes this step.
                        Self::tick_bus(bus, Ghost(start), Ghost(done));
                    }
                } else {
                    Self::tick_bus(bus, Ghost(start), Ghost(done));
                }
            },
            State::Running => {
                if self.ime && pending.is_some() {
                    let interrupt = pending.unwrap();
                    self.dispatch(bus, interrupt, Ghost(start), Ghost(done));
                } else {
                    let address = self.regs.pc;
                    let opcode = self.fetch8(bus, Ghost(start), Ghost(done));
                    let ghost d1 = Self::fetch8_spec(start, c0, done).1;
                    if Self::illegal(opcode) {
                        // 0xD3, 0xDB, 0xDD, 0xE3... are not instructions at all. Real
                        // hardware locks up.
                        result = Err(IllegalOpcode { opcode, address });
                    } else {
                        self.execute(bus, opcode, Ghost(start), Ghost(d1));
                    }
                }
            },
        }

        if enabling_ime {
            self.ime = true;
            self.ime_pending = false;
        }
        result
    }

    /// Whether an opcode is one of the holes in the opcode map.
    pub fn illegal(opcode: u8) -> (r: bool)
        ensures
            r == is_illegal(opcode),
    {
        opcode == 0xD3 || opcode == 0xDB || opcode == 0xDD || opcode == 0xE3 || opcode == 0xE4
            || opcode == 0xEB || opcode == 0xEC || opcode == 0xED || opcode == 0xF4 || opcode
            == 0xFC || opcode == 0xFD
    }
}

impl Default for Cpu {
    fn default() -> (r: Self)
        ensures
            r == Cpu::initial(),
    {
        Cpu::new()
    }
}

} // verus!
