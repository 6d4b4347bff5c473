//! The system bus: the cartridge's mapper, video, work RAM, the timer, the serial
//! port, the joypad and the interrupt registers, wired to the addresses the CPU sees.
//!
//! | Range | Device |
//! |---|---|
//! | 0x0000-0x7FFF | cartridge ROM, through the mapper |
//! | 0x8000-0x9FFF | VRAM, locked while the PPU draws |
//! | 0xA000-0xBFFF | cartridge RAM (or MBC3's clock), through the mapper |
//! | 0xFE00-0xFE9F | OAM, locked while the PPU scans and draws |
//! | 0xFF00 | joypad |
//! | 0xFF01-0xFF02 | serial port |
//! | 0xFF04-0xFF07 | timer |
//! | 0xFF0F | IF |
//! | 0xFF10-0xFF3F | sound registers and wave RAM |
//! | 0xFF40-0xFF4B | LCD registers |
//! | 0xFFFF | IE |
//!
//! Everything else — work RAM, HRAM and the unused areas — is plain memory. There is
//! no OAM DMA: enough for the CPU test ROMs, for drawing a picture and for sound, not
//! for every game.
//!
//! # How the bus is specified
//!
//! [`TestBusModel`] is the whole machine outside the CPU as a value, and
//! [`TestBusModel::apply`] what one bus operation does to it. The [`Bus`] contract
//! is stated over those, so everything proved of the CPU holds of this machine.
use vstd::prelude::*;
use crate::apu::Apu;
use crate::bus::{behaves_as, lemma_tick_count_push, tick_count, Bus, BusOp, wrapping_inc};
use crate::cartridge::Cartridge;
use crate::cartridge::mbc::{Mbc, MbcModel, Ram, RamModel, UnsupportedMapper};
use crate::interrupts::{Interrupt, InterruptState};
use crate::joypad::Joypad;
use crate::ppu::{Ppu, PpuModel};
use crate::serial::{Serial, SerialModel};
use crate::timer::Timer;

verus! {

/// The machine outside the CPU, as a value.
pub struct TestBusModel {
    pub mbc: MbcModel,
    pub memory: Seq<u8>,
    pub timer: Timer,
    pub serial: SerialModel,
    pub ppu: PpuModel,
    pub joypad: Joypad,
    pub apu: Apu,
    pub interrupts: InterruptState,
    pub cycles: u64,
}

impl TestBusModel {
    /// The machine just after power-on, around a cartridge whose mapper starts as `mbc`.
    pub open spec fn powered_on(mbc: MbcModel) -> TestBusModel {
        TestBusModel {
            mbc,
            memory: Seq::new(0x1_0000, |i: int| 0u8),
            timer: Timer::initial(),
            serial: SerialModel::initial(),
            ppu: PpuModel::initial(),
            joypad: Joypad::initial(),
            apu: Apu::initial(),
            interrupts: InterruptState { requested: 0, enabled: 0 },
            cycles: 0,
        }
    }

    /// The devices' invariants, and a full 64 KiB of backing memory.
    pub open spec fn well_formed(self) -> bool {
        &&& self.memory.len() == 0x1_0000
        &&& self.ppu.well_formed()
        &&& self.mbc.well_formed()
        &&& self.apu.well_formed()
    }

    /// What a read of `address` returns.
    pub open spec fn read_spec(self, address: u16) -> u8 {
        if address < 0x8000 {
            self.mbc.read_rom_spec(address)
        } else if address < 0xA000 {
            self.ppu.read_vram_spec(address)
        } else if address < 0xC000 {
            self.mbc.read_ram_spec(address)
        } else if 0xFE00 <= address < 0xFEA0 {
            self.ppu.read_oam_spec(address)
        } else if address == 0xFF00 {
            self.joypad.read_spec()
        } else if 0xFF01 <= address <= 0xFF02 {
            self.serial.read_spec(address)
        } else if 0xFF04 <= address <= 0xFF07 {
            self.timer.read_spec(address)
        } else if address == 0xFF0F {
            self.interrupts.requested | 0xE0
        } else if 0xFF10 <= address <= 0xFF3F {
            self.apu.read_spec(address)
        } else if 0xFF40 <= address <= 0xFF4B {
            self.ppu.read_spec(address)
        } else if address == 0xFFFF {
            self.interrupts.enabled
        } else {
            self.memory[address as int]
        }
    }

    /// The machine after a write of `value` to `address`.
    pub open spec fn write_spec(self, address: u16, value: u8) -> TestBusModel {
        if address < 0x8000 {
            TestBusModel { mbc: self.mbc.write_rom_spec(address, value), ..self }
        } else if address < 0xA000 {
            TestBusModel { ppu: self.ppu.write_vram_spec(address, value), ..self }
        } else if address < 0xC000 {
            TestBusModel { mbc: self.mbc.write_ram_spec(address, value), ..self }
        } else if 0xFE00 <= address < 0xFEA0 {
            TestBusModel { ppu: self.ppu.write_oam_spec(address, value), ..self }
        } else if address == 0xFF00 {
            TestBusModel { joypad: Joypad { select: value & 0x30, ..self.joypad }, ..self }
        } else if 0xFF01 <= address <= 0xFF02 {
            TestBusModel { serial: self.serial.write_spec(address, value), ..self }
        } else if 0xFF04 <= address <= 0xFF07 {
            TestBusModel { timer: self.timer.write_spec(address, value), ..self }
        } else if address == 0xFF0F {
            TestBusModel {
                interrupts: InterruptState { requested: value & 0x1F, ..self.interrupts },
                ..self
            }
        } else if 0xFF10 <= address <= 0xFF3F {
            TestBusModel { apu: self.apu.write_spec(address, value), ..self }
        } else if 0xFF40 <= address <= 0xFF4B {
            TestBusModel { ppu: self.ppu.write_spec(address, value), ..self }
        } else if address == 0xFFFF {
            TestBusModel { interrupts: InterruptState { enabled: value, ..self.interrupts }, ..self }
        } else {
            TestBusModel { memory: self.memory.update(address as int, value), ..self }
        }
    }

    /// One M-cycle: the cycle counter, then the timer, the APU (watching the timer's
    /// new DIV), the serial port, the PPU and the cartridge each advance, in that
    /// order.
    pub open spec fn tick_spec(self) -> TestBusModel {
        let (timer, ints) = self.timer.tick_spec(self.interrupts);
        let apu = self.apu.tick_spec(timer.read_spec(0xFF04));
        let (serial, ints) = self.serial.tick_spec(ints);
        let (ppu, ints) = self.ppu.tick_spec(ints);
        TestBusModel {
            cycles: wrapping_inc(self.cycles),
            timer,
            apu,
            serial,
            ppu,
            mbc: self.mbc.tick_spec(),
            interrupts: ints,
            ..self
        }
    }

    /// The effect of one bus operation.
    pub open spec fn apply(self, op: BusOp) -> TestBusModel {
        match op {
            BusOp::Tick => self.tick_spec(),
            BusOp::Read(_) => self,
            BusOp::Write(address, value) => self.write_spec(address, value),
            BusOp::Acknowledge(interrupt) => TestBusModel {
                interrupts: self.interrupts.acknowledge_spec(interrupt),
                ..self
            },
        }
    }

    /// The effect of a sequence of operations, first to last.
    pub open spec fn run(self, ops: Seq<BusOp>) -> TestBusModel
        decreases ops.len(),
    {
        if ops.len() == 0 {
            self
        } else {
            self.apply(ops[0]).run(ops.drop_first())
        }
    }
}

/// Work RAM and HRAM read back what was written to them.
pub proof fn lemma_memory_reads_back(m: TestBusModel, address: u16, value: u8)
    requires
        0xC000 <= address < 0xFE00 || 0xFF80 <= address < 0xFFFF,
        m.memory.len() == 0x1_0000,
    ensures
        m.write_spec(address, value).read_spec(address) == value,
{
}

/// A write to one plain-memory address leaves every other address as it was.
pub proof fn lemma_memory_write_is_local(m: TestBusModel, address: u16, other: u16, value: u8)
    requires
        0xC000 <= address < 0xFE00 || 0xFF80 <= address < 0xFFFF,
        0xC000 <= other < 0xFE00 || 0xFF80 <= other < 0xFFFF,
        address != other,
        m.memory.len() == 0x1_0000,
    ensures
        m.write_spec(address, value).read_spec(other) == m.read_spec(other),
{
}

proof fn lemma_run_prepend(m: TestBusModel, op: BusOp, ops: Seq<BusOp>)
    ensures
        m.run(seq![op] + ops) == m.apply(op).run(ops),
{
    assert((seq![op] + ops).drop_first() =~= ops);
    assert((seq![op] + ops)[0] == op);
}

#[verifier::spinoff_prover]
proof fn lemma_run_push(m: TestBusModel, ops: Seq<BusOp>, op: BusOp)
    ensures
        m.run(ops.push(op)) == m.run(ops).apply(op),
    decreases ops.len(),
{
    let pushed = ops.push(op);
    if ops.len() == 0 {
        assert(pushed.drop_first() =~= Seq::<BusOp>::empty());
        assert(pushed[0] == op);
        let next = m.apply(op);
        assert(next.run(Seq::<BusOp>::empty()) == next);
        assert(m.run(pushed) == next.run(pushed.drop_first()));
    } else {
        let first = ops[0];
        let next = m.apply(first);
        assert(pushed.drop_first() =~= ops.drop_first().push(op));
        assert(pushed[0] == first);
        lemma_run_push(next, ops.drop_first(), op);
        assert(m.run(pushed) == next.run(pushed.drop_first()));
        assert(m.run(ops) == next.run(ops.drop_first()));
    }
}

/// Running no operations changes nothing.
pub proof fn lemma_run_nothing(m: TestBusModel)
    ensures
        m.run(Seq::<BusOp>::empty()) == m,
{
}

proof fn lemma_wrapping_inc_mod(x: int)
    requires
        x >= 0,
    ensures
        wrapping_inc((x % 0x1_0000_0000_0000_0000) as u64) as int == (x + 1) % 0x1_0000_0000_0000_0000,
{
    let d: int = 0x1_0000_0000_0000_0000;
    vstd::arithmetic::div_mod::lemma_mod_adds(x, 1, d);
    vstd::arithmetic::div_mod::lemma_small_mod(1, d as nat);
    let r = x % d;
    assert(0 <= r < d);
    if r + 1 < d {
        assert((r + 1) / d == 0) by {
            vstd::arithmetic::div_mod::lemma_basic_div(r + 1, d);
        }
    } else {
        assert((r + 1) / d == 1) by {
            vstd::arithmetic::div_mod::lemma_div_by_self(d);
        }
    }
}

/// What one operation does to the cycle counter: a tick advances it, wrapping at
/// 2^64, and nothing else touches it.
proof fn lemma_apply_counts_cycles(m: TestBusModel, op: BusOp)
    ensures
        m.apply(op).cycles == if op is Tick {
            wrapping_inc(m.cycles)
        } else {
            m.cycles
        },
{
    if let BusOp::Write(address, value) = op {
        assert(m.write_spec(address, value).cycles == m.cycles);
    }
}

/// The cycle counter counts the ticks among the operations, wrapping at 2^64; reads,
/// writes and acknowledgements leave it alone.
#[verifier::spinoff_prover]
pub proof fn lemma_run_counts_cycles(m: TestBusModel, ops: Seq<BusOp>)
    ensures
        m.run(ops).cycles as int == (m.cycles + tick_count(ops)) % 0x1_0000_0000_0000_0000,
    decreases ops.len(),
{
    if ops.len() == 0 {
        vstd::arithmetic::div_mod::lemma_small_mod(m.cycles as nat, 0x1_0000_0000_0000_0000);
    } else {
        let rest = ops.drop_last();
        let op = ops.last();
        assert(rest.push(op) =~= ops);
        lemma_run_push(m, rest, op);
        lemma_run_counts_cycles(m, rest);
        lemma_tick_count_push(rest, op);
        let before = m.run(rest);
        lemma_apply_counts_cycles(before, op);
        if op is Tick {
            lemma_wrapping_inc_mod(m.cycles + tick_count(rest));
        }
    }
}

/// A machine one operation on runs every sequence as the machine before would run
/// that operation followed by the sequence.
proof fn lemma_runs_after(now: TestBusModel, before: TestBusModel, op: BusOp)
    requires
        now == before.apply(op),
    ensures
        forall|ops: Seq<BusOp>| #[trigger] now.run(ops) == before.run(seq![op] + ops),
{
    assert forall|ops: Seq<BusOp>| #[trigger] now.run(ops) == before.run(seq![op] + ops) by {
        lemma_run_prepend(before, op, ops);
    }
}

pub struct TestBus {
    pub mbc: Mbc,
    /// Everything not decoded to a device, including WRAM and HRAM.
    pub memory: Vec<u8>,
    pub timer: Timer,
    pub serial: Serial,
    pub ppu: Ppu,
    pub joypad: Joypad,
    pub apu: Apu,
    pub interrupts: InterruptState,
    /// M-cycles since power-on.
    pub cycles: u64,
}

impl View for TestBus {
    type V = TestBusModel;

    open spec fn view(&self) -> TestBusModel {
        TestBusModel {
            mbc: self.mbc@,
            memory: self.memory@,
            timer: self.timer,
            serial: self.serial@,
            ppu: self.ppu@,
            joypad: self.joypad,
            apu: self.apu,
            interrupts: self.interrupts,
            cycles: self.cycles,
        }
    }
}

impl TestBus {
    /// A powered-on machine around `cart`, or the mapper it needs if we do not
    /// emulate that one.
    pub fn new(cart: &Cartridge) -> (r: Result<Self, UnsupportedMapper>)
        ensures
            match MbcModel::for_header(
                cart.header_spec().cartridge_type.mapper,
                cart.image(),
                (cart.header_spec().rom_size / 0x4000) as nat,
                cart.header_spec().ram_size as nat,
                cart.header_spec().cartridge_type.has_timer,
            ) {
                Some(m) => r matches Ok(bus) && bus@ == TestBusModel::powered_on(m)
                    && bus@.well_formed(),
                None => r == Err::<TestBus, UnsupportedMapper>(
                    UnsupportedMapper(cart.header_spec().cartridge_type.mapper),
                ),
            },
    {
        let mbc = match cart.create_mbc() {
            Ok(mbc) => mbc,
            Err(e) => return Err(e),
        };
        let memory = vec![0u8; 0x1_0000];
        proof {
            assert(memory@ =~= Seq::new(0x1_0000, |i: int| 0u8));
        }
        Ok(
            TestBus {
                mbc,
                memory,
                timer: Timer::new(),
                serial: Serial::new(),
                ppu: Ppu::new(),
                joypad: Joypad::new(),
                apu: Apu::new(),
                interrupts: InterruptState { requested: 0, enabled: 0 },
                cycles: 0,
            },
        )
    }

    /// The cartridge's save RAM.
    pub fn cartridge_ram(&self) -> (r: Option<&Ram>)
        ensures
            r matches Some(ram) && ram@ == self@.mbc.ram(),
    {
        self.mbc.ram()
    }

    /// Fills the cartridge's save RAM from a save file's bytes.
    pub fn load_cartridge_ram(&mut self, data: &[u8])
        requires
            old(self)@.well_formed(),
            data@.len() >= old(self)@.mbc.ram().bytes.len(),
        ensures
            final(self)@ == (TestBusModel {
                mbc: old(self)@.mbc.with_ram(
                    RamModel {
                        bytes: data@.take(old(self)@.mbc.ram().bytes.len() as int),
                        dirty: false,
                        ..old(self)@.mbc.ram()
                    },
                ),
                ..old(self)@
            }),
            final(self)@.well_formed(),
    {
        self.mbc.load_ram(data);
    }

    /// Records that the cartridge's save RAM has been written out.
    pub fn mark_cartridge_ram_clean(&mut self)
        requires
            old(self)@.well_formed(),
        ensures
            final(self)@ == (TestBusModel {
                mbc: old(self)@.mbc.with_ram(RamModel { dirty: false, ..old(self)@.mbc.ram() }),
                ..old(self)@
            }),
            final(self)@.well_formed(),
    {
        self.mbc.mark_ram_clean();
    }
}

impl Bus for TestBus {
    open spec fn ready(&self) -> bool {
        self@.well_formed()
    }

    open spec fn read_after(&self, ops: Seq<BusOp>, address: u16) -> u8 {
        self@.run(ops).read_spec(address)
    }

    open spec fn pending_after(&self, ops: Seq<BusOp>) -> Option<Interrupt> {
        self@.run(ops).interrupts.pending_spec()
    }

    open spec fn cycles_after(&self, ops: Seq<BusOp>) -> u64 {
        self@.run(ops).cycles
    }

    type Model = TestBusModel;

    open spec fn model_after(&self, ops: Seq<BusOp>) -> TestBusModel {
        self@.run(ops)
    }

    fn read(&mut self, address: u16) -> (value: u8) {
        proof {
            assert forall|ops: Seq<BusOp>, a: u16| #[trigger]
                self.read_after(ops, a) == self.read_after(seq![BusOp::Read(address)] + ops, a) by {
                lemma_run_prepend(self@, BusOp::Read(address), ops);
            }
            assert forall|ops: Seq<BusOp>| #[trigger]
                self.pending_after(ops) == self.pending_after(seq![BusOp::Read(address)] + ops) by {
                lemma_run_prepend(self@, BusOp::Read(address), ops);
            }
            assert forall|ops: Seq<BusOp>| #[trigger]
                self.cycles_after(ops) == self.cycles_after(seq![BusOp::Read(address)] + ops) by {
                lemma_run_prepend(self@, BusOp::Read(address), ops);
            }
            assert forall|ops: Seq<BusOp>| #[trigger]
                self.model_after(ops) == self.model_after(seq![BusOp::Read(address)] + ops) by {
                lemma_run_prepend(self@, BusOp::Read(address), ops);
            }
        }
        if address < 0x8000 {
            self.mbc.read_rom(address)
        } else if address < 0xA000 {
            self.ppu.read_vram(address)
        } else if address < 0xC000 {
            self.mbc.read_ram(address)
        } else if 0xFE00 <= address && address < 0xFEA0 {
            self.ppu.read_oam(address)
        } else if address == 0xFF00 {
            self.joypad.read()
        } else if 0xFF01 <= address && address <= 0xFF02 {
            self.serial.read(address)
        } else if 0xFF04 <= address && address <= 0xFF07 {
            self.timer.read(address)
        } else if address == 0xFF0F {
            self.interrupts.read_if()
        } else if 0xFF10 <= address && address <= 0xFF3F {
            self.apu.read(address)
        } else if 0xFF40 <= address && address <= 0xFF4B {
            self.ppu.read(address)
        } else if address == 0xFFFF {
            self.interrupts.enabled
        } else {
            self.memory[address as usize]
        }
    }

    fn write(&mut self, address: u16, value: u8) {
        let ghost before = self@;
        if address < 0x8000 {
            // Writes here are mapper commands on real hardware, never memory.
            self.mbc.write_rom(address, value);
        } else if address < 0xA000 {
            self.ppu.write_vram(address, value);
        } else if address < 0xC000 {
            self.mbc.write_ram(address, value);
        } else if 0xFE00 <= address && address < 0xFEA0 {
            self.ppu.write_oam(address, value);
        } else if address == 0xFF00 {
            self.joypad.write(value);
        } else if 0xFF01 <= address && address <= 0xFF02 {
            self.serial.write(address, value);
        } else if 0xFF04 <= address && address <= 0xFF07 {
            self.timer.write(address, value);
        } else if address == 0xFF0F {
            self.interrupts.write_if(value);
        } else if 0xFF10 <= address && address <= 0xFF3F {
            self.apu.write(address, value);
        } else if 0xFF40 <= address && address <= 0xFF4B {
            self.ppu.write(address, value);
        } else if address == 0xFFFF {
            self.interrupts.enabled = value;
        } else {
            self.memory.set(address as usize, value);
        }
        proof {
            assert(self@ == before.apply(BusOp::Write(address, value)));
            lemma_runs_after(self@, before, BusOp::Write(address, value));
        }
    }

    fn tick(&mut self) {
        let ghost before = self@;
        self.cycles = self.cycles.wrapping_add(1);
        self.timer.tick(&mut self.interrupts);
        self.apu.tick(self.timer.div());
        self.serial.tick(&mut self.interrupts);
        self.ppu.tick(&mut self.interrupts);
        self.mbc.tick();
        proof {
            assert(self@ == before.apply(BusOp::Tick));
            lemma_runs_after(self@, before, BusOp::Tick);
        }
    }

    fn pending_interrupt(&self) -> (r: Option<Interrupt>) {
        self.interrupts.pending()
    }

    fn acknowledge_interrupt(&mut self, interrupt: Interrupt) {
        let ghost before = self@;
        self.interrupts.acknowledge(interrupt);
        proof {
            assert(self@ == before.apply(BusOp::Acknowledge(interrupt)));
            lemma_runs_after(self@, before, BusOp::Acknowledge(interrupt));
        }
    }
}

/// A machine that behaves as `before` after `done` is exactly the machine `before`
/// becomes by performing `done`.
pub proof fn lemma_machine_after(after: TestBus, before: TestBus, done: Seq<BusOp>)
    requires
        behaves_as(after, before, done),
    ensures
        after@ == before@.run(done),
{
    assert(after.model_after(seq![]) == before.model_after(done + seq![]));
    assert(done + seq![] =~= done);
    lemma_run_nothing(after@);
}

} // verus!
