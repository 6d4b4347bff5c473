//! Running a machine without a window: a number of frames for a screenshot, or a test
//! ROM until it reports, and the screen as a PGM image.
//!
//! Test ROMs such as Blargg's write their result one character at a time to the serial
//! port and finish with "Passed" or "Failed", then spin forever; watching the output
//! for either word turns such a ROM into a pass/fail signal.
use vstd::prelude::*;
use crate::cpu::{inc16, is_illegal, Cpu, IllegalOpcode, State};
use crate::cpu::laws::lemma_an_illegal_step;
use crate::bus::{behaves_as, tick_count, Bus, BusOp};
use crate::cpu::timing::lemma_a_step_takes_one_to_six_cycles;
use crate::ppu::Ppu;
use crate::testbus::{lemma_run_counts_cycles, lemma_run_nothing, TestBus, TestBusModel};

verus! {

/// Whether `needle` occurs in `haystack` starting at `at`.
pub open spec fn occurs_at(haystack: Seq<u8>, needle: Seq<u8>, at: int) -> bool {
    0 <= at && at + needle.len() <= haystack.len() && haystack.subrange(at, at + needle.len())
        == needle
}

/// Whether `needle` occurs anywhere in `haystack`.
pub open spec fn occurs(haystack: Seq<u8>, needle: Seq<u8>) -> bool {
    exists|at: int| occurs_at(haystack, needle, at)
}

/// "Passed", in ASCII.
pub open spec fn passed_word() -> Seq<u8> {
    seq![0x50u8, 0x61, 0x73, 0x73, 0x65, 0x64]
}

/// "Failed", in ASCII.
pub open spec fn failed_word() -> Seq<u8> {
    seq![0x46u8, 0x61, 0x69, 0x6C, 0x65, 0x64]
}

/// Whether a test ROM's output has reached its verdict.
pub open spec fn reported(output: Seq<u8>) -> bool {
    occurs(output, passed_word()) || occurs(output, failed_word())
}

/// Whether `needle` occurs in `haystack`.
pub fn contains_bytes(haystack: &[u8], needle: &[u8]) -> (r: bool)
    ensures
        r == occurs(haystack@, needle@),
{
    if needle.len() > haystack.len() {
        return false;
    }
    if needle.len() == 0 {
        assert(occurs_at(haystack@, needle@, 0)) by {
            assert(haystack@.subrange(0, 0) =~= needle@);
        }
        return true;
    }
    let last = haystack.len() - needle.len();
    assert(haystack@.len() <= usize::MAX);
    let mut at: usize = 0;
    while at <= last
        invariant
            0 < needle@.len() <= haystack@.len(),
            haystack@.len() <= usize::MAX,
            last == haystack@.len() - needle@.len(),
            at <= last + 1,
            forall|k: int| 0 <= k < at ==> !occurs_at(haystack@, needle@, k),
        decreases last + 1 - at,
    {
        let mut i: usize = 0;
        let mut same = true;
        while i < needle.len()
            invariant
                0 < needle@.len() <= haystack@.len(),
                haystack@.len() <= usize::MAX,
                at <= last,
                last == haystack@.len() - needle@.len(),
                i <= needle@.len(),
                same == (forall|j: int| 0 <= j < i ==> haystack@[at + j] == needle@[j]),
            decreases needle@.len() - i,
        {
            if haystack[at + i] != needle[i] {
                same = false;
            }
            i = i + 1;
        }
        if same {
            assert(haystack@.subrange(at as int, at + needle@.len()) =~= needle@);
            assert(occurs_at(haystack@, needle@, at as int));
            return true;
        }
        assert(!occurs_at(haystack@, needle@, at as int)) by {
            if occurs_at(haystack@, needle@, at as int) {
                let j = choose|j: int| 0 <= j < needle@.len() && haystack@[at + j] != needle@[j];
                assert(haystack@.subrange(at as int, at + needle@.len())[j] == haystack@[at + j]);
            }
        }
        at = at + 1;
    }
    assert forall|k: int| !occurs_at(haystack@, needle@, k) by {
        if 0 <= k && k + needle@.len() <= haystack@.len() {
            assert(k < at);
        }
    }
    false
}

/// Whether a test ROM's output says it passed.
pub fn test_passed(output: &[u8]) -> (r: bool)
    ensures
        r == occurs(output@, passed_word()),
{
    let word: [u8; 6] = [0x50, 0x61, 0x73, 0x73, 0x65, 0x64];
    proof {
        assert(word@ =~= passed_word());
    }
    contains_bytes(output, word.as_slice())
}

/// Whether a test ROM's output has reached its verdict, either way.
pub fn test_reported(output: &[u8]) -> (r: bool)
    ensures
        r == reported(output@),
{
    let failed: [u8; 6] = [0x46, 0x61, 0x69, 0x6C, 0x65, 0x64];
    proof {
        assert(failed@ =~= failed_word());
    }
    test_passed(output) || contains_bytes(output, failed.as_slice())
}

/// A step of `cpu` on `bus` that meets a real instruction, and leaves the CPU as
/// `next` and the bus as `after`.
pub open spec fn steps_to(cpu: Cpu, bus: TestBus, next: Cpu, after: TestBus) -> bool {
    let (c, ops, legal) = Cpu::step_spec(bus, cpu);
    &&& legal
    &&& next == c
    &&& behaves_as(after, bus, ops)
}

/// A step of `cpu` on `bus` that meets an opcode that is not an instruction,
/// reported as `e`, and leaves the CPU as `next` and the bus as `after`.
pub open spec fn stops_at(cpu: Cpu, bus: TestBus, next: Cpu, after: TestBus, e: IllegalOpcode) -> bool {
    let (c, ops, legal) = Cpu::step_spec(bus, cpu);
    &&& !legal
    &&& next == c
    &&& behaves_as(after, bus, ops)
    &&& e.opcode == Cpu::next_opcode_spec(bus, cpu)
    &&& e.address == cpu.regs.pc
}

/// The `i`-th step of a run takes its `i`-th state to its next.
pub open spec fn step_of_run(cpus: Seq<Cpu>, buses: Seq<TestBus>, i: int) -> bool {
    steps_to(cpus[i], buses[i], cpus[i + 1], buses[i + 1])
}

/// `cpus` and `buses` are the states of a run of real instructions, first to last.
pub open spec fn a_run(cpus: Seq<Cpu>, buses: Seq<TestBus>) -> bool {
    &&& cpus.len() == buses.len()
    &&& cpus.len() >= 1
    &&& forall|i: int| 0 <= i < cpus.len() - 1 ==> #[trigger] step_of_run(cpus, buses, i)
}

pub(crate) proof fn lemma_run_extends(cpus: Seq<Cpu>, buses: Seq<TestBus>, next: Cpu, after: TestBus)
    requires
        a_run(cpus, buses),
        steps_to(cpus.last(), buses.last(), next, after),
    ensures
        a_run(cpus.push(next), buses.push(after)),
{
    let c2 = cpus.push(next);
    let b2 = buses.push(after);
    assert forall|i: int| 0 <= i < c2.len() - 1 implies #[trigger] step_of_run(c2, b2, i) by {
        if i < cpus.len() - 1 {
            assert(step_of_run(cpus, buses, i));
        }
    }
}

/// A test ROM's verdict is checked, and found, at this state of the bus.
pub open spec fn verdict_due(bus: TestBus) -> bool {
    bus.cycles % 0x1000 == 0 && reported(bus@.serial.output)
}

/// From the `i`-th state the test run goes on: the cycle limit is not reached, and
/// (after the first) no verdict is due.
pub open spec fn test_goes_on(buses: Seq<TestBus>, max_cycles: u64, i: int) -> bool {
    buses[i].cycles < max_cycles && (i == 0 || !verdict_due(buses[i]))
}

/// What [`run_test_rom`] does from `cpu0` and `bus0`: a run of real instructions
/// that goes on from every state but the last, and ends at the cycle limit or a
/// verdict (`Ok`), or at an opcode that is not an instruction (`Err`), leaving `cpu1`
/// and `bus1`.
pub open spec fn test_rom_ran(
    cpu0: Cpu,
    bus0: TestBus,
    max_cycles: u64,
    r: Result<(), IllegalOpcode>,
    cpu1: Cpu,
    bus1: TestBus,
) -> bool {
    exists|cpus: Seq<Cpu>, buses: Seq<TestBus>|
        #![trigger a_run(cpus, buses)]
        {
            &&& a_run(cpus, buses)
            &&& cpus[0] == cpu0
            &&& buses[0] == bus0
            &&& forall|i: int| 0 <= i < cpus.len() - 1 ==> #[trigger] test_goes_on(buses, max_cycles, i)
            &&& match r {
                Ok(_) => {
                    &&& cpu1 == cpus.last()
                    &&& bus1 == buses.last()
                    &&& bus1.cycles >= max_cycles || (cpus.len() > 1 && verdict_due(bus1))
                },
                Err(e) => {
                    &&& test_goes_on(buses, max_cycles, cpus.len() - 1)
                    &&& stops_at(cpus.last(), buses.last(), cpu1, bus1, e)
                },
            }
        }
}

/// The bus with its completed frame taken: the PPU's ready flag cleared.
pub open spec fn frame_taken(bus: TestBus) -> TestBus {
    TestBus { ppu: Ppu { frame_ready: false, ..bus.ppu }, ..bus }
}

/// How many of `buses` have a frame ready.
pub open spec fn frames_ready(buses: Seq<TestBus>) -> nat
    decreases buses.len(),
{
    if buses.len() == 0 {
        0
    } else {
        frames_ready(buses.drop_last()) + if buses.last().ppu.frame_ready {
            1nat
        } else {
            0nat
        }
    }
}

/// The `i`-th step of a run that takes each frame as it completes: a real
/// instruction takes the `i`-th state to `mids[i]`, whose frame is then taken.
pub open spec fn frame_step_of_run(cpus: Seq<Cpu>, buses: Seq<TestBus>, mids: Seq<TestBus>, i: int) -> bool {
    &&& steps_to(cpus[i], buses[i], cpus[i + 1], mids[i])
    &&& buses[i + 1] == frame_taken(mids[i])
}

/// `cpus` and `buses` are the states of a run of real instructions that takes each
/// frame as it completes; `mids` are the buses just after each step.
pub open spec fn a_frame_run(cpus: Seq<Cpu>, buses: Seq<TestBus>, mids: Seq<TestBus>) -> bool {
    &&& cpus.len() == buses.len()
    &&& cpus.len() == mids.len() + 1
    &&& forall|i: int| 0 <= i < mids.len() ==> #[trigger] frame_step_of_run(cpus, buses, mids, i)
}

/// From the `i`-th state the screenshot run goes on: fewer than `frames` frames
/// taken so far, and the budget not reached.
pub open spec fn frames_go_on(buses: Seq<TestBus>, mids: Seq<TestBus>, frames: u64, budget: u64, i: int) -> bool {
    frames_ready(mids.take(i)) < frames && buses[i].cycles < budget
}

/// What [`run_frames`] does from `cpu0` and `bus0`: a run that takes each frame as
/// it completes and goes on from every state but the last. It ends with all the
/// frames or the budget spent, or at an opcode that is not an instruction (whose
/// step may still complete a frame), leaving `cpu1` and `bus1`; the count is the
/// frames taken along the way.
pub open spec fn frames_ran(
    cpu0: Cpu,
    bus0: TestBus,
    frames: u64,
    budget: u64,
    r: (u64, Option<IllegalOpcode>),
    cpu1: Cpu,
    bus1: TestBus,
) -> bool {
    exists|cpus: Seq<Cpu>, buses: Seq<TestBus>, mids: Seq<TestBus>, last: TestBus|
        #![trigger a_frame_run(cpus, buses, mids), last.cycles]
        {
            &&& a_frame_run(cpus, buses, mids)
            &&& cpus[0] == cpu0
            &&& buses[0] == bus0
            &&& forall|i: int| 0 <= i < mids.len() ==> #[trigger] frames_go_on(buses, mids, frames, budget, i)
            &&& match r.1 {
                None => {
                    &&& cpu1 == cpus.last()
                    &&& bus1 == buses.last()
                    &&& r.0 == frames_ready(mids)
                    &&& r.0 == frames || bus1.cycles >= budget
                },
                Some(e) => {
                    &&& frames_go_on(buses, mids, frames, budget, mids.len() as int)
                    &&& stops_at(cpus.last(), buses.last(), cpu1, last, e)
                    &&& bus1 == frame_taken(last)
                    &&& r.0 == frames_ready(mids.push(last))
                },
            }
        }
}

/// From the `i`-th state the run goes on waiting for a frame: none is ready, and
/// the budget is not reached.
pub open spec fn frame_awaited(buses: Seq<TestBus>, budget: u64, i: int) -> bool {
    !buses[i]@.ppu.frame_ready && buses[i].cycles < budget
}

/// A run from `cpu0` and `bus0` that waits for a frame: it goes on from every state
/// but the last, and ends with a frame ready or the budget reached (`Ok`), or at an
/// opcode that is not an instruction (`Err`), leaving `cpu1` and `bus1`.
pub open spec fn ran_until_frame(
    cpu0: Cpu,
    bus0: TestBus,
    budget: u64,
    r: Result<(), IllegalOpcode>,
    cpu1: Cpu,
    bus1: TestBus,
) -> bool {
    exists|cpus: Seq<Cpu>, buses: Seq<TestBus>|
        #![trigger a_run(cpus, buses)]
        {
            &&& a_run(cpus, buses)
            &&& cpus[0] == cpu0
            &&& buses[0] == bus0
            &&& forall|i: int| 0 <= i < cpus.len() - 1 ==> #[trigger] frame_awaited(buses, budget, i)
            &&& match r {
                Ok(_) => {
                    &&& cpu1 == cpus.last()
                    &&& bus1 == buses.last()
                    &&& bus1@.ppu.frame_ready || bus1.cycles >= budget
                },
                Err(e) => {
                    &&& frame_awaited(buses, budget, cpus.len() - 1)
                    &&& stops_at(cpus.last(), buses.last(), cpu1, bus1, e)
                },
            }
        }
}

/// One step advances a [`TestBus`]'s cycle counter by one to six M-cycles, as long
/// as the counter has that much room left.
pub(crate) proof fn lemma_step_advances_cycles(before: TestBus, after: TestBus, c: Cpu)
    requires
        behaves_as(after, before, Cpu::step_spec(before, c).1),
        before.cycles <= u64::MAX - 6,
    ensures
        before.cycles < after.cycles <= before.cycles + 6,
{
    let ops = Cpu::step_spec(before, c).1;
    lemma_a_step_takes_one_to_six_cycles(before, c);
    lemma_cycles_follow_ticks(before, after, ops);
}

proof fn lemma_cycles_follow_ticks(before: TestBus, after: TestBus, ops: Seq<BusOp>)
    requires
        behaves_as(after, before, ops),
        1 <= tick_count(ops) <= 6,
        before.cycles <= u64::MAX - 6,
    ensures
        before.cycles < after.cycles <= before.cycles + 6,
{
    let empty = Seq::<BusOp>::empty();
    assert(after.cycles_after(empty) == before.cycles_after(ops + empty));
    lemma_counted(before@, after@, ops);
}

proof fn lemma_counted(m: TestBusModel, n: TestBusModel, ops: Seq<BusOp>)
    requires
        n.run(Seq::<BusOp>::empty()).cycles == m.run(ops + Seq::<BusOp>::empty()).cycles,
        1 <= tick_count(ops) <= 6,
        m.cycles <= u64::MAX - 6,
    ensures
        m.cycles < n.cycles <= m.cycles + 6,
{
    assert(ops + Seq::<BusOp>::empty() =~= ops);
    lemma_run_counts_cycles(m, ops);
    lemma_run_nothing(n);
    let total = m.cycles + tick_count(ops);
    assert(total % 0x1_0000_0000_0000_0000 == total) by {
        vstd::arithmetic::div_mod::lemma_small_mod(total as nat, 0x1_0000_0000_0000_0000);
    }
}

/// Runs a test ROM until its serial output reports a verdict or the bus has run for
/// `max_cycles` M-cycles, checking the output whenever the cycle count is a multiple
/// of 0x1000. Stops at an opcode that is not an instruction, reporting it.
///
/// Every step takes between one and six M-cycles, so the limit is always reached; it
/// must leave the counter room for the last step.
pub fn run_test_rom(cpu: &mut Cpu, bus: &mut TestBus, max_cycles: u64) -> (r: Result<(), IllegalOpcode>)
    requires
        old(bus)@.well_formed(),
        max_cycles <= u64::MAX - 5,
    ensures
        final(bus)@.well_formed(),
        test_rom_ran(*old(cpu), *old(bus), max_cycles, r, *final(cpu), *final(bus)),
        r is Ok ==> final(bus).cycles >= max_cycles || (final(bus).cycles % 0x1000 == 0
            && reported(final(bus)@.serial.output)),
        old(bus).cycles <= final(bus).cycles,
        old(bus).cycles < max_cycles ==> final(bus).cycles <= max_cycles + 5,
        old(bus).cycles >= max_cycles ==> r is Ok && *final(bus) == *old(bus) && *final(cpu)
            == *old(cpu),
        r matches Err(e) ==> is_illegal(e.opcode) && final(cpu).state == State::Running && (
        final(cpu).regs.pc == inc16(e.address) || final(cpu).regs.pc == e.address),
{
    let ghost start = bus.cycles;
    let ghost mut cpus: Seq<Cpu> = seq![*cpu];
    let ghost mut buses: Seq<TestBus> = seq![*bus];
    proof {
        assert forall|i: int| 0 <= i < cpus.len() - 1 implies #[trigger] step_of_run(cpus, buses, i) by {}
    }
    while bus.cycles < max_cycles
        invariant
            bus@.well_formed(),
            max_cycles <= u64::MAX - 5,
            start < max_cycles ==> bus.cycles <= max_cycles + 5,
            start == old(bus).cycles,
            start <= bus.cycles,
            start >= max_cycles ==> *bus == *old(bus) && *cpu == *old(cpu),
            a_run(cpus, buses),
            cpus[0] == *old(cpu),
            buses[0] == *old(bus),
            cpus.last() == *cpu,
            buses.last() == *bus,
            forall|i: int| 0 <= i < cpus.len() - 1 ==> #[trigger] test_goes_on(buses, max_cycles, i),
            cpus.len() == 1 || !verdict_due(*bus),
        decreases max_cycles + 5 - bus.cycles,
    {
        let ghost before = *bus;
        let ghost c = *cpu;
        proof {
            assert(test_goes_on(buses, max_cycles, cpus.len() - 1));
        }
        let stepped = cpu.step(bus);
        proof {
            lemma_step_advances_cycles(before, *bus, c);
        }
        if let Err(illegal) = stepped {
            proof {
                lemma_an_illegal_step(before, c);
                assert(stops_at(cpus.last(), buses.last(), *cpu, *bus, illegal));
                assert(a_run(cpus, buses));
            }
            return Err(illegal);
        }
        proof {
            lemma_run_extends(cpus, buses, *cpu, *bus);
            let n = cpus.len() - 1;
            assert(test_goes_on(buses, max_cycles, n));
            let b2 = buses.push(*bus);
            assert forall|i: int| 0 <= i < cpus.len() implies #[trigger] test_goes_on(b2, max_cycles, i) by {
                if i < n {
                    assert(test_goes_on(buses, max_cycles, i));
                }
            }
            cpus = cpus.push(*cpu);
            buses = b2;
        }
        // Checking the output is cheap but not free, and only needs doing occasionally.
        if bus.cycles % 0x1000 == 0 && test_reported(bus.serial.output()) {
            proof {
                assert(a_run(cpus, buses));
            }
            return Ok(());
        }
    }
    proof {
        assert(a_run(cpus, buses));
    }
    Ok(())
}

/// Runs until `frames` frames have completed or the bus has run for `budget`
/// M-cycles, and says how many completed. Each completed frame is taken, so the PPU's
/// ready flag is clear afterwards. An illegal opcode stops the run early, and is
/// reported beside the count.
pub fn run_frames(cpu: &mut Cpu, bus: &mut TestBus, frames: u64, budget: u64) -> (r: (u64, Option<IllegalOpcode>))
    requires
        old(bus)@.well_formed(),
        !old(bus)@.ppu.frame_ready,
        budget <= u64::MAX - 5,
    ensures
        final(bus)@.well_formed(),
        !final(bus)@.ppu.frame_ready,
        frames_ran(*old(cpu), *old(bus), frames, budget, r, *final(cpu), *final(bus)),
        r.0 <= frames,
        r.1 is None ==> r.0 == frames || final(bus).cycles >= budget,
        old(bus).cycles <= final(bus).cycles,
        old(bus).cycles < budget ==> final(bus).cycles <= budget + 5,
        old(bus).cycles >= budget || frames == 0 ==> r == (0u64, None::<IllegalOpcode>)
            && *final(bus) == *old(bus),
        r.1 matches Some(e) ==> is_illegal(e.opcode) && final(cpu).state == State::Running && (
        final(cpu).regs.pc == inc16(e.address) || final(cpu).regs.pc == e.address),
{
    let mut drawn: u64 = 0;
    let ghost mut cpus: Seq<Cpu> = seq![*cpu];
    let ghost mut buses: Seq<TestBus> = seq![*bus];
    let ghost mut mids: Seq<TestBus> = Seq::empty();
    while drawn < frames && bus.cycles < budget
        invariant
            bus@.well_formed(),
            !bus@.ppu.frame_ready,
            drawn <= frames,
            budget <= u64::MAX - 5,
            old(bus).cycles <= bus.cycles,
            old(bus).cycles < budget ==> bus.cycles <= budget + 5,
            old(bus).cycles >= budget || frames == 0 ==> drawn == 0 && *bus == *old(bus),
            a_frame_run(cpus, buses, mids),
            cpus[0] == *old(cpu),
            buses[0] == *old(bus),
            cpus.last() == *cpu,
            buses.last() == *bus,
            drawn == frames_ready(mids),
            forall|i: int| 0 <= i < mids.len() ==> #[trigger] frames_go_on(buses, mids, frames, budget, i),
        decreases budget + 5 - bus.cycles,
    {
        let ghost before = *bus;
        let ghost c = *cpu;
        proof {
            assert(mids.take(mids.len() as int) =~= mids);
            assert(frames_go_on(buses, mids, frames, budget, mids.len() as int));
        }
        let stepped = cpu.step(bus);
        proof {
            lemma_step_advances_cycles(before, *bus, c);
        }
        let ghost mid = *bus;
        if bus.ppu.frame_ready {
            bus.ppu.frame_ready = false;
            drawn = drawn + 1;
        }
        proof {
            assert(*bus == frame_taken(mid));
            assert(mids.push(mid).drop_last() =~= mids);
        }
        if let Err(illegal) = stepped {
            proof {
                lemma_an_illegal_step(before, c);
                assert(stops_at(cpus.last(), buses.last(), *cpu, mid, illegal));
                assert(a_frame_run(cpus, buses, mids));
                assert(mid.cycles == mid.cycles);
            }
            return (drawn, Some(illegal));
        }
        proof {
            let n = mids.len() as int;
            let c2 = cpus.push(*cpu);
            let b2 = buses.push(*bus);
            let m2 = mids.push(mid);
            assert forall|i: int| 0 <= i < m2.len() implies #[trigger] frame_step_of_run(c2, b2, m2, i) by {
                if i < n {
                    assert(frame_step_of_run(cpus, buses, mids, i));
                }
            }
            assert forall|i: int| 0 <= i < m2.len() implies #[trigger] frames_go_on(b2, m2, frames, budget, i) by {
                assert(m2.take(i) =~= mids.take(i));
                if i < n {
                    assert(frames_go_on(buses, mids, frames, budget, i));
                }
            }
            cpus = c2;
            buses = b2;
            mids = m2;
        }
    }
    proof {
        assert(a_frame_run(cpus, buses, mids));
        assert(bus.cycles == bus.cycles);
    }
    (drawn, None)
}

/// The ASCII digit a shade is written as in a PGM image: 3 is white, so shade 0, the
/// lightest, is written 3.
pub open spec fn pgm_digit(shade: u8) -> u8 {
    (0x33 - shade % 4) as u8
}

/// The PGM header: plain-text grey map, 160 by 144, maximum value 3.
pub open spec fn pgm_header() -> Seq<u8> {
    seq![0x50u8, 0x32, 0x0A, 0x31, 0x36, 0x30, 0x20, 0x31, 0x34, 0x34, 0x0A, 0x33, 0x0A]
}

/// The screen as a plain PGM file: the header, then one digit per pixel, separated
/// by spaces within a row and ending each row with a newline.
pub open spec fn pgm_spec(framebuffer: Seq<u8>) -> Seq<u8> {
    pgm_header() + Seq::new(
        46080,
        |j: int|
            if j % 2 == 0 {
                pgm_digit(framebuffer[j / 2])
            } else if (j / 2) % 160 == 159 {
                0x0Au8
            } else {
                0x20u8
            },
    )
}

/// Encodes the screen as a plain PGM image.
pub fn pgm_image(framebuffer: &[u8; 23040]) -> (r: Vec<u8>)
    ensures
        r@ == pgm_spec(framebuffer@),
{
    let mut out: Vec<u8> = vec![0x50, 0x32, 0x0A, 0x31, 0x36, 0x30, 0x20, 0x31, 0x34, 0x34, 0x0A, 0x33, 0x0A];
    let ghost body = Seq::new(
        46080,
        |j: int|
            if j % 2 == 0 {
                pgm_digit(framebuffer@[j / 2])
            } else if (j / 2) % 160 == 159 {
                0x0Au8
            } else {
                0x20u8
            },
    );
    proof {
        assert(out@ =~= pgm_header());
    }
    let mut i: usize = 0;
    while i < 23040
        invariant
            i <= 23040,
            framebuffer@.len() == 23040,
            out@ =~= pgm_header() + body.subrange(0, 2 * i as int),
            body == Seq::new(
                46080,
                |j: int|
                    if j % 2 == 0 {
                        pgm_digit(framebuffer@[j / 2])
                    } else if (j / 2) % 160 == 159 {
                        0x0Au8
                    } else {
                        0x20u8
                    },
            ),
        decreases 23040 - i,
    {
        let shade = framebuffer[i];
        out.push(0x33 - shade % 4);
        if i % 160 == 159 {
            out.push(0x0A);
        } else {
            out.push(0x20);
        }
        proof {
            assert(body[2 * i as int] == pgm_digit(framebuffer@[i as int]));
            assert(body[2 * i + 1] == if i % 160 == 159 {
                0x0Au8
            } else {
                0x20u8
            });
            assert(body.subrange(0, 2 * (i + 1)) =~= body.subrange(0, 2 * i as int).push(
                body[2 * i as int],
            ).push(body[2 * i + 1]));
        }
        i = i + 1;
    }
    proof {
        assert(body.subrange(0, 46080) =~= body);
    }
    out
}

} // verus!
