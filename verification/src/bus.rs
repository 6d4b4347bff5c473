//! The memory bus interface.
//!
//! Everything the CPU can reach goes through this trait. It is a trait rather than a
//! concrete type so the CPU can be tested against a flat 64 KiB array without
//! dragging in the cartridge, PPU, and timer — and so the real bus can grow those
//! subsystems without the CPU noticing.
//!
//! Reads and writes are deliberately `&mut self`: on real hardware a read can have
//! side effects, and there is no way to express "reading this register clears it"
//! with a shared borrow.
//!
//! # How a bus is specified
//!
//! A bus is described by what it *answers*: [`Bus::read_after`] is the byte a read
//! returns once a given sequence of operations has been performed,
//! [`Bus::pending_after`] the interrupt it then reports, [`Bus::cycles_after`] its
//! cycle count, and [`Bus::model_after`] the whole bus as a value of its own model. Each operation's contract says
//! that the bus afterwards answers exactly as the bus before would have with that
//! operation performed first ([`behaves_as`]). The CPU's contract is stated over the
//! same answers, so it holds for every bus, whatever devices sit behind it.
use vstd::prelude::*;
use crate::interrupts::{Interrupt, InterruptState};

verus! {

/// One thing the CPU can do to the bus.
#[derive(Debug, Clone, Copy, PartialEq, Eq, Structural)]
pub enum BusOp {
    /// One M-cycle passes.
    Tick,
    /// A read of an address.
    Read(u16),
    /// A write of a byte to an address.
    Write(u16, u8),
    /// The CPU clears a source's `IF` bit as it dispatches it.
    Acknowledge(Interrupt),
}

/// A device the CPU can read from and write to.
pub trait Bus: Sized {
    /// The bus's own invariant, which every operation keeps: what its devices need
    /// to hold of their state (for a flat memory, nothing).
    open spec fn ready(&self) -> bool {
        true
    }

    /// The byte a read of `address` returns after the bus has performed `ops`.
    open spec fn read_after(&self, ops: Seq<BusOp>, address: u16) -> u8 {
        arbitrary()
    }

    /// The interrupt the bus reports as pending after it has performed `ops`.
    open spec fn pending_after(&self, ops: Seq<BusOp>) -> Option<Interrupt> {
        arbitrary()
    }

    /// The bus's count of M-cycles after it has performed `ops`.
    open spec fn cycles_after(&self, ops: Seq<BusOp>) -> u64 {
        arbitrary()
    }

    /// What the bus is, as a value: everything about it, where the other questions
    /// ask about a part.
    type Model;

    /// The bus's whole state after it has performed `ops`.
    open spec fn model_after(&self, ops: Seq<BusOp>) -> Self::Model {
        arbitrary()
    }

    fn read(&mut self, address: u16) -> (value: u8)
        requires
            old(self).ready(),
        ensures
            final(self).ready(),
            value == old(self).read_after(seq![], address),
            forall|ops: Seq<BusOp>, a: u16| #[trigger] final(self).read_after(ops, a)
                == old(self).read_after(seq![BusOp::Read(address)] + ops, a),
            forall|ops: Seq<BusOp>| #[trigger] final(self).pending_after(ops)
                == old(self).pending_after(seq![BusOp::Read(address)] + ops),
            forall|ops: Seq<BusOp>| #[trigger] final(self).cycles_after(ops)
                == old(self).cycles_after(seq![BusOp::Read(address)] + ops),
            forall|ops: Seq<BusOp>| #[trigger] final(self).model_after(ops)
                == old(self).model_after(seq![BusOp::Read(address)] + ops),
    ;

    fn write(&mut self, address: u16, value: u8)
        requires
            old(self).ready(),
        ensures
            final(self).ready(),
            forall|ops: Seq<BusOp>, a: u16| #[trigger] final(self).read_after(ops, a)
                == old(self).read_after(seq![BusOp::Write(address, value)] + ops, a),
            forall|ops: Seq<BusOp>| #[trigger] final(self).pending_after(ops)
                == old(self).pending_after(seq![BusOp::Write(address, value)] + ops),
            forall|ops: Seq<BusOp>| #[trigger] final(self).cycles_after(ops)
                == old(self).cycles_after(seq![BusOp::Write(address, value)] + ops),
            forall|ops: Seq<BusOp>| #[trigger] final(self).model_after(ops)
                == old(self).model_after(seq![BusOp::Write(address, value)] + ops),
    ;

    /// Advances the rest of the system by one M-cycle (4 T-cycles).
    ///
    /// The CPU calls this for every machine cycle it spends, including the ones where
    /// it isn't touching memory. That is what keeps the PPU and timer in step with
    /// instruction execution rather than being advanced in a lump afterwards.
    fn tick(&mut self)
        requires
            old(self).ready(),
        ensures
            final(self).ready(),
            forall|ops: Seq<BusOp>, a: u16| #[trigger] final(self).read_after(ops, a)
                == old(self).read_after(seq![BusOp::Tick] + ops, a),
            forall|ops: Seq<BusOp>| #[trigger] final(self).pending_after(ops)
                == old(self).pending_after(seq![BusOp::Tick] + ops),
            forall|ops: Seq<BusOp>| #[trigger] final(self).cycles_after(ops)
                == old(self).cycles_after(seq![BusOp::Tick] + ops),
            forall|ops: Seq<BusOp>| #[trigger] final(self).model_after(ops)
                == old(self).model_after(seq![BusOp::Tick] + ops),
    ;

    /// The highest-priority interrupt that is requested *and* enabled, if any.
    ///
    /// Interrupts flow this way — the CPU asks the bus — rather than devices calling
    /// into the CPU. A device raises an interrupt by setting a bit in `IF`, which
    /// lives on the bus, and the CPU polls it between instructions. That keeps
    /// ownership one-directional.
    fn pending_interrupt(&self) -> (r: Option<Interrupt>)
        ensures
            r == self.pending_after(seq![]),
    ;

    /// Clears a source's `IF` bit as the CPU dispatches it.
    fn acknowledge_interrupt(&mut self, interrupt: Interrupt)
        requires
            old(self).ready(),
        ensures
            final(self).ready(),
            forall|ops: Seq<BusOp>, a: u16| #[trigger] final(self).read_after(ops, a)
                == old(self).read_after(seq![BusOp::Acknowledge(interrupt)] + ops, a),
            forall|ops: Seq<BusOp>| #[trigger] final(self).pending_after(ops)
                == old(self).pending_after(seq![BusOp::Acknowledge(interrupt)] + ops),
            forall|ops: Seq<BusOp>| #[trigger] final(self).cycles_after(ops)
                == old(self).cycles_after(seq![BusOp::Acknowledge(interrupt)] + ops),
            forall|ops: Seq<BusOp>| #[trigger] final(self).model_after(ops)
                == old(self).model_after(seq![BusOp::Acknowledge(interrupt)] + ops),
    ;
}

/// `now` is ready for use and answers every question exactly as `start` would after
/// performing `done`: what it reads, what it reports pending, how many M-cycles it
/// has counted, and what it is as a whole.
pub open spec fn behaves_as<B: Bus>(now: B, start: B, done: Seq<BusOp>) -> bool {
    &&& now.ready()
    &&& forall|ops: Seq<BusOp>, address: u16| #[trigger]
        now.read_after(ops, address) == start.read_after(done + ops, address)
    &&& forall|ops: Seq<BusOp>| #[trigger] now.pending_after(ops) == start.pending_after(done + ops)
    &&& forall|ops: Seq<BusOp>| #[trigger] now.cycles_after(ops) == start.cycles_after(done + ops)
    &&& forall|ops: Seq<BusOp>| #[trigger] now.model_after(ops) == start.model_after(done + ops)
}

/// A bus behaves as itself with nothing done.
pub proof fn lemma_behaves_as_itself<B: Bus>(b: B)
    requires
        b.ready(),
    ensures
        behaves_as(b, b, seq![]),
{
    assert forall|ops: Seq<BusOp>, address: u16| #[trigger]
        b.read_after(ops, address) == b.read_after(seq![] + ops, address) by {
        assert(seq![] + ops =~= ops);
    }
    assert forall|ops: Seq<BusOp>| #[trigger] b.pending_after(ops) == b.pending_after(
        seq![] + ops,
    ) by {
        assert(seq![] + ops =~= ops);
    }
    assert forall|ops: Seq<BusOp>| #[trigger] b.cycles_after(ops) == b.cycles_after(
        seq![] + ops,
    ) by {
        assert(seq![] + ops =~= ops);
    }
    assert forall|ops: Seq<BusOp>| #[trigger] b.model_after(ops) == b.model_after(
        seq![] + ops,
    ) by {
        assert(seq![] + ops =~= ops);
    }
}

/// Performing one more operation extends what has been done.
pub proof fn lemma_behaves_as_step<B: Bus>(
    after: B,
    before: B,
    start: B,
    done: Seq<BusOp>,
    op: BusOp,
)
    requires
        behaves_as(before, start, done),
        behaves_as(after, before, seq![op]),
    ensures
        behaves_as(after, start, done.push(op)),
{
    assert forall|ops: Seq<BusOp>, address: u16| #[trigger]
        after.read_after(ops, address) == start.read_after(done.push(op) + ops, address) by {
        assert(after.read_after(ops, address) == before.read_after(seq![op] + ops, address));
        assert(before.read_after(seq![op] + ops, address) == start.read_after(
            done + (seq![op] + ops),
            address,
        ));
        assert(done + (seq![op] + ops) =~= done.push(op) + ops);
    }
    assert forall|ops: Seq<BusOp>| #[trigger] after.pending_after(ops) == start.pending_after(
        done.push(op) + ops,
    ) by {
        assert(after.pending_after(ops) == before.pending_after(seq![op] + ops));
        assert(before.pending_after(seq![op] + ops) == start.pending_after(
            done + (seq![op] + ops),
        ));
        assert(done + (seq![op] + ops) =~= done.push(op) + ops);
    }
    assert forall|ops: Seq<BusOp>| #[trigger] after.cycles_after(ops) == start.cycles_after(
        done.push(op) + ops,
    ) by {
        assert(after.cycles_after(ops) == before.cycles_after(seq![op] + ops));
        assert(before.cycles_after(seq![op] + ops) == start.cycles_after(
            done + (seq![op] + ops),
        ));
        assert(done + (seq![op] + ops) =~= done.push(op) + ops);
    }    assert forall|ops: Seq<BusOp>| #[trigger] after.model_after(ops) == start.model_after(
        done.push(op) + ops,
    ) by {
        assert(after.model_after(ops) == before.model_after(seq![op] + ops));
        assert(before.model_after(seq![op] + ops) == start.model_after(
            done + (seq![op] + ops),
        ));
        assert(done + (seq![op] + ops) =~= done.push(op) + ops);
    }
}

/// What a bus that behaves as `start` after `done` reads and reports right now.
pub proof fn lemma_behaves_as_now<B: Bus>(now: B, start: B, done: Seq<BusOp>, address: u16)
    requires
        behaves_as(now, start, done),
    ensures
        now.read_after(seq![], address) == start.read_after(done, address),
        now.pending_after(seq![]) == start.pending_after(done),
        now.cycles_after(seq![]) == start.cycles_after(done),
        now.model_after(seq![]) == start.model_after(done),
{
    assert(done + seq![] =~= done);
    assert(now.read_after(seq![], address) == start.read_after(done + seq![], address));
    assert(now.pending_after(seq![]) == start.pending_after(done + seq![]));
    assert(now.cycles_after(seq![]) == start.cycles_after(done + seq![]));
    assert(now.model_after(seq![]) == start.model_after(done + seq![]));
}

/// The state of a [`FlatMemory`], as a value.
pub struct FlatModel {
    pub memory: Seq<u8>,
    pub cycles: u64,
    pub interrupts: InterruptState,
}

/// What a [`FlatMemory`] read of `address` returns in `m`.
pub open spec fn flat_read(m: FlatModel, address: u16) -> u8 {
    if (address as int) < m.memory.len() {
        m.memory[address as int]
    } else {
        0xFF
    }
}

/// A cycle counter one M-cycle later, wrapping as the hardware counters do.
pub open spec fn wrapping_inc(count: u64) -> u64 {
    if count == u64::MAX {
        0
    } else {
        (count + 1) as u64
    }
}

/// How many M-cycles pass during `ops`: the number of ticks among them.
pub open spec fn tick_count(ops: Seq<BusOp>) -> nat
    decreases ops.len(),
{
    if ops.len() == 0 {
        0
    } else {
        tick_count(ops.drop_last()) + if ops.last() is Tick {
            1nat
        } else {
            0nat
        }
    }
}

/// One more operation adds one to the count if it is a tick, and nothing otherwise.
pub broadcast proof fn lemma_tick_count_push(ops: Seq<BusOp>, op: BusOp)
    ensures
        #[trigger] tick_count(ops.push(op)) == tick_count(ops) + if op is Tick {
            1nat
        } else {
            0nat
        },
{
    assert(ops.push(op).drop_last() =~= ops);
}

/// The effect of one operation on a [`FlatMemory`].
pub open spec fn flat_apply(m: FlatModel, op: BusOp) -> FlatModel {
    match op {
        BusOp::Tick => FlatModel { cycles: wrapping_inc(m.cycles), ..m },
        BusOp::Read(_) => m,
        BusOp::Write(address, value) => if (address as int) < m.memory.len() {
            FlatModel { memory: m.memory.update(address as int, value), ..m }
        } else {
            m
        },
        BusOp::Acknowledge(interrupt) => FlatModel {
            interrupts: m.interrupts.acknowledge_spec(interrupt),
            ..m
        },
    }
}

/// The effect of a sequence of operations, first to last.
pub open spec fn flat_run(m: FlatModel, ops: Seq<BusOp>) -> FlatModel
    decreases ops.len(),
{
    if ops.len() == 0 {
        m
    } else {
        flat_run(flat_apply(m, ops[0]), ops.drop_first())
    }
}

/// Running one more operation is applying it to what the others left.
pub(crate) proof fn lemma_flat_run_push(m: FlatModel, ops: Seq<BusOp>, op: BusOp)
    ensures
        flat_run(m, ops.push(op)) == flat_apply(flat_run(m, ops), op),
    decreases ops.len(),
{
    let pushed = ops.push(op);
    assert(pushed.len() > 0 && pushed[0] == if ops.len() == 0 {
        op
    } else {
        ops[0]
    });
    if ops.len() == 0 {
        assert(pushed.drop_first() =~= Seq::<BusOp>::empty());
        assert(flat_run(flat_apply(m, op), Seq::<BusOp>::empty()) == flat_apply(m, op));
        assert(flat_run(m, ops) == m);
    } else {
        assert(pushed.drop_first() =~= ops.drop_first().push(op));
        lemma_flat_run_push(flat_apply(m, ops[0]), ops.drop_first(), op);
    }
}

proof fn lemma_flat_run_prepend(m: FlatModel, op: BusOp, ops: Seq<BusOp>)
    ensures
        flat_run(m, seq![op] + ops) == flat_run(flat_apply(m, op), ops),
{
    assert((seq![op] + ops).drop_first() =~= ops);
    assert((seq![op] + ops)[0] == op);
}

/// A flat 64 KiB memory with no device behavior, for testing the CPU in isolation.
pub struct FlatMemory {
    pub memory: Vec<u8>,
    /// Counts M-cycles so tests can assert on instruction timing.
    pub cycles: u64,
    /// Real interrupt registers, so CPU dispatch can be tested without the full bus.
    pub interrupts: InterruptState,
}

impl FlatMemory {
    pub open spec fn model(&self) -> FlatModel {
        FlatModel { memory: self.memory@, cycles: self.cycles, interrupts: self.interrupts }
    }

    pub fn new() -> (r: Self)
        ensures
            r.memory@ == Seq::new(0x1_0000, |i: int| 0u8),
            r.cycles == 0,
            r.interrupts.requested == 0,
            r.interrupts.enabled == 0,
    {
        let memory = vec![0u8; 0x1_0000];
        assert(memory@ =~= Seq::new(0x1_0000, |i: int| 0u8));
        FlatMemory { memory, cycles: 0, interrupts: InterruptState { requested: 0, enabled: 0 } }
    }

    /// Loads bytes at an address, for placing a test program.
    pub fn load(&mut self, address: u16, bytes: &[u8])
        requires
            address + bytes@.len() <= old(self).memory@.len(),
        ensures
            final(self).memory@ == old(self).memory@.subrange(0, address as int) + bytes@
                + old(self).memory@.subrange(
                address + bytes@.len(),
                old(self).memory@.len() as int,
            ),
            final(self).cycles == old(self).cycles,
            final(self).interrupts == old(self).interrupts,
    {
        let start = address as usize;
        let mut i: usize = 0;
        while i < bytes.len()
            invariant
                i <= bytes@.len(),
                start + bytes@.len() <= self.memory@.len(),
                self.memory@.len() == old(self).memory@.len(),
                self.memory@.len() == self.memory.len(),
                self.cycles == old(self).cycles,
                self.interrupts == old(self).interrupts,
                forall|j: int|
                    0 <= j < self.memory@.len() ==> #[trigger] self.memory@[j] == if start <= j
                        < start + i {
                        bytes@[j - start]
                    } else {
                        old(self).memory@[j]
                    },
            decreases bytes@.len() - i,
        {
            self.memory.set(start + i, bytes[i]);
            i += 1;
        }
        assert(self.memory@ =~= old(self).memory@.subrange(0, address as int) + bytes@
            + old(self).memory@.subrange(address + bytes@.len(), old(self).memory@.len() as int));
    }
}

impl Bus for FlatMemory {
    open spec fn read_after(&self, ops: Seq<BusOp>, address: u16) -> u8 {
        flat_read(flat_run(self.model(), ops), address)
    }

    open spec fn pending_after(&self, ops: Seq<BusOp>) -> Option<Interrupt> {
        flat_run(self.model(), ops).interrupts.pending_spec()
    }

    open spec fn cycles_after(&self, ops: Seq<BusOp>) -> u64 {
        flat_run(self.model(), ops).cycles
    }

    type Model = FlatModel;

    open spec fn model_after(&self, ops: Seq<BusOp>) -> FlatModel {
        flat_run(self.model(), ops)
    }

    fn read(&mut self, address: u16) -> (value: u8) {
        proof {
            assert forall|ops: Seq<BusOp>, a: u16| #[trigger]
                self.read_after(ops, a) == self.read_after(seq![BusOp::Read(address)] + ops, a) by {
                lemma_flat_run_prepend(self.model(), BusOp::Read(address), ops);
            }
            assert forall|ops: Seq<BusOp>| #[trigger]
                self.pending_after(ops) == self.pending_after(seq![BusOp::Read(address)] + ops) by {
                lemma_flat_run_prepend(self.model(), BusOp::Read(address), ops);
            }
            assert forall|ops: Seq<BusOp>| #[trigger]
                self.cycles_after(ops) == self.cycles_after(seq![BusOp::Read(address)] + ops) by {
                lemma_flat_run_prepend(self.model(), BusOp::Read(address), ops);
            }
            assert forall|ops: Seq<BusOp>| #[trigger]
                self.model_after(ops) == self.model_after(seq![BusOp::Read(address)] + ops) by {
                lemma_flat_run_prepend(self.model(), BusOp::Read(address), ops);
            }
        }
        if (address as usize) < self.memory.len() {
            self.memory[address as usize]
        } else {
            0xFF
        }
    }

    fn write(&mut self, address: u16, value: u8) {
        let ghost before = self.model();
        if (address as usize) < self.memory.len() {
            self.memory.set(address as usize, value);
        }
        proof {
            assert(self.model() == flat_apply(before, BusOp::Write(address, value)));
            assert forall|ops: Seq<BusOp>, a: u16| #[trigger]
                self.read_after(ops, a) == flat_read(
                    flat_run(before, seq![BusOp::Write(address, value)] + ops),
                    a,
                ) by {
                lemma_flat_run_prepend(before, BusOp::Write(address, value), ops);
            }
            assert forall|ops: Seq<BusOp>| #[trigger]
                self.pending_after(ops) == flat_run(
                    before,
                    seq![BusOp::Write(address, value)] + ops,
                ).interrupts.pending_spec() by {
                lemma_flat_run_prepend(before, BusOp::Write(address, value), ops);
            }
            assert forall|ops: Seq<BusOp>| #[trigger]
                self.cycles_after(ops) == flat_run(before, seq![BusOp::Write(address, value)] + ops).cycles by {
                lemma_flat_run_prepend(before, BusOp::Write(address, value), ops);
            }
            assert forall|ops: Seq<BusOp>| #[trigger]
                self.model_after(ops) == flat_run(before, seq![BusOp::Write(address, value)] + ops) by {
                lemma_flat_run_prepend(before, BusOp::Write(address, value), ops);
            }
        }
    }

    fn tick(&mut self) {
        let ghost before = self.model();
        self.cycles = self.cycles.wrapping_add(1);
        proof {
            assert(self.model() == flat_apply(before, BusOp::Tick));
            assert forall|ops: Seq<BusOp>, a: u16| #[trigger]
                self.read_after(ops, a) == flat_read(
                    flat_run(before, seq![BusOp::Tick] + ops),
                    a,
                ) by {
                lemma_flat_run_prepend(before, BusOp::Tick, ops);
            }
            assert forall|ops: Seq<BusOp>| #[trigger]
                self.pending_after(ops) == flat_run(
                    before,
                    seq![BusOp::Tick] + ops,
                ).interrupts.pending_spec() by {
                lemma_flat_run_prepend(before, BusOp::Tick, ops);
            }
            assert forall|ops: Seq<BusOp>| #[trigger]
                self.cycles_after(ops) == flat_run(before, seq![BusOp::Tick] + ops).cycles by {
                lemma_flat_run_prepend(before, BusOp::Tick, ops);
            }
            assert forall|ops: Seq<BusOp>| #[trigger]
                self.model_after(ops) == flat_run(before, seq![BusOp::Tick] + ops) by {
                lemma_flat_run_prepend(before, BusOp::Tick, ops);
            }
        }
    }

    fn pending_interrupt(&self) -> (r: Option<Interrupt>) {
        self.interrupts.pending()
    }

    fn acknowledge_interrupt(&mut self, interrupt: Interrupt) {
        let ghost before = self.model();
        self.interrupts.acknowledge(interrupt);
        proof {
            assert(self.model() == flat_apply(before, BusOp::Acknowledge(interrupt)));
            assert forall|ops: Seq<BusOp>, a: u16| #[trigger]
                self.read_after(ops, a) == flat_read(
                    flat_run(before, seq![BusOp::Acknowledge(interrupt)] + ops),
                    a,
                ) by {
                lemma_flat_run_prepend(before, BusOp::Acknowledge(interrupt), ops);
            }
            assert forall|ops: Seq<BusOp>| #[trigger]
                self.pending_after(ops) == flat_run(
                    before,
                    seq![BusOp::Acknowledge(interrupt)] + ops,
                ).interrupts.pending_spec() by {
                lemma_flat_run_prepend(before, BusOp::Acknowledge(interrupt), ops);
            }
            assert forall|ops: Seq<BusOp>| #[trigger]
                self.cycles_after(ops) == flat_run(before, seq![BusOp::Acknowledge(interrupt)] + ops).cycles by {
                lemma_flat_run_prepend(before, BusOp::Acknowledge(interrupt), ops);
            }
            assert forall|ops: Seq<BusOp>| #[trigger]
                self.model_after(ops) == flat_run(before, seq![BusOp::Acknowledge(interrupt)] + ops) by {
                lemma_flat_run_prepend(before, BusOp::Acknowledge(interrupt), ops);
            }
        }
    }
}

/// A flat memory that behaves as `before` after `done` is exactly the memory
/// `before` becomes by performing `done`: its bytes, its cycle count and its
/// interrupt registers.
pub proof fn lemma_flat_memory_after(after: FlatMemory, before: FlatMemory, done: Seq<BusOp>)
    requires
        behaves_as(after, before, done),
    ensures
        after.model() == flat_run(before.model(), done),
{
    assert(after.model_after(seq![]) == before.model_after(done + seq![]));
    assert(done + seq![] =~= done);
}

} // verus!
