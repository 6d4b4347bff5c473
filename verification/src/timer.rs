//! The timer: DIV, TIMA, TMA, and TAC.
//!
//! # The one idea that explains everything
//!
//! There is a single 16-bit counter that increments once per T-cycle and is never
//! reset except by a write to DIV. Everything else is a view onto it:
//!
//! - **DIV** (0xFF04) is not its own counter — it is the *high byte* of that 16-bit
//!   value. Since the low byte wraps every 256 T-cycles, DIV appears to tick at
//!   16384 Hz.
//! - **TIMA** (0xFF05) increments on a **falling edge** of one selected bit of the
//!   counter, ANDed with the timer-enable bit of TAC.
//!
//! Falling-edge detection rather than "every N cycles" is the whole game. It means
//! the timer's phase is tied to the shared counter, not to when the timer was
//! switched on, and it is why the quirks below exist at all.
//!
//! # The quirks that fall out
//!
//! - Writing **any** value to DIV resets the whole 16-bit counter to zero. If the
//!   watched bit was 1 at that moment, zeroing it *is* a falling edge, so TIMA
//!   increments as a side effect of a DIV write.
//! - Disabling the timer in TAC while the watched bit is 1 likewise produces a
//!   falling edge, ticking TIMA on the way down.
//! - Changing the TAC frequency can tick TIMA, if the old bit was 1 and the new one
//!   is 0.
//!
//! # The overflow delay
//!
//! When TIMA overflows past 0xFF it does **not** reload from TMA immediately. For
//! one M-cycle it reads as 0x00, and only then is TMA loaded and the interrupt
//! requested. Writes landing in that window behave specially, as noted at the write
//! sites below.
use vstd::prelude::*;
use crate::interrupts::{Interrupt, InterruptState};

verus! {

/// State of the pending TIMA overflow, which takes effect one M-cycle late.
#[derive(Debug, Clone, Copy, PartialEq, Eq, Structural)]
pub enum Overflow {
    /// Not overflowing.
    Idle,
    /// TIMA overflowed this M-cycle: it reads 0x00 and the reload is due next cycle.
    Pending,
    /// The reload happened this M-cycle. Tracked because a write to TIMA during the
    /// reload cycle is ignored, unlike one during the pending cycle.
    Reloaded,
}

#[derive(Debug, Clone, Copy)]
pub struct Timer {
    /// The 16-bit system counter. DIV is its high byte.
    pub counter: u16,
    /// TIMA (0xFF05) — the counter that actually raises interrupts.
    pub tima: u8,
    /// TMA (0xFF06) — the value TIMA reloads from after overflowing.
    pub tma: u8,
    /// TAC (0xFF07) — bit 2 enables the timer, bits 0-1 select the frequency.
    pub tac: u8,
    /// Last observed state of (selected bit AND enable), for edge detection.
    pub last_edge_bit: bool,
    pub overflow: Overflow,
}

/// The power of two whose bit of the counter TAC selects.
///
/// The four frequencies are 4096, 262144, 65536, and 16384 Hz. Note the order:
/// slot 0 is the *slowest*, not the fastest, which is easy to get backwards.
pub open spec fn selected_period(tac: u8) -> u16 {
    let slot = tac % 4;
    if slot == 0 {
        512
    } else if slot == 1 {
        8
    } else if slot == 2 {
        32
    } else {
        128
    }
}

impl Timer {
    /// Post-boot state.
    pub open spec fn initial() -> Timer {
        Timer {
            counter: 0xABCC,
            tima: 0x00,
            tma: 0x00,
            tac: 0xF8,
            last_edge_bit: false,
            overflow: Overflow::Idle,
        }
    }

    /// The value the edge detector watches: the selected counter bit ANDed with the
    /// enable bit.
    pub open spec fn edge_bit_spec(self) -> bool {
        (self.counter / selected_period(self.tac)) % 2 == 1 && (self.tac / 4) % 2 == 1
    }

    /// TIMA plus one; an overflow leaves it at zero and schedules the reload.
    pub open spec fn increment_tima_spec(self) -> Timer {
        if self.tima == 0xFF {
            Timer { tima: 0, overflow: Overflow::Pending, ..self }
        } else {
            Timer { tima: (self.tima + 1) as u8, ..self }
        }
    }

    /// Increments TIMA if the watched bit just fell, and remembers the bit.
    pub open spec fn detect_edge_spec(self) -> Timer {
        let current = self.edge_bit_spec();
        let t = if self.last_edge_bit && !current {
            self.increment_tima_spec()
        } else {
            self
        };
        Timer { last_edge_bit: current, ..t }
    }

    /// One T-cycle of the counter.
    pub open spec fn count_spec(self) -> Timer {
        Timer { counter: ((self.counter + 1) % 65536) as u16, ..self }.detect_edge_spec()
    }

    /// One M-cycle: first the overflow pipeline advances, then four T-cycles of
    /// counting.
    pub open spec fn tick_spec(self, interrupts: InterruptState) -> (Timer, InterruptState) {
        let (t, ints) = match self.overflow {
            Overflow::Pending => (
                Timer { tima: self.tma, overflow: Overflow::Reloaded, ..self },
                interrupts.request_spec(Interrupt::Timer),
            ),
            Overflow::Reloaded => (Timer { overflow: Overflow::Idle, ..self }, interrupts),
            Overflow::Idle => (self, interrupts),
        };
        (t.count_spec().count_spec().count_spec().count_spec(), ints)
    }

    pub open spec fn read_spec(self, address: u16) -> u8 {
        if address == 0xFF04 {
            (self.counter / 256) as u8
        } else if address == 0xFF05 {
            self.tima
        } else if address == 0xFF06 {
            self.tma
        } else if address == 0xFF07 {
            self.tac | 0xF8
        } else {
            0xFF
        }
    }

    pub open spec fn write_spec(self, address: u16, value: u8) -> Timer {
        if address == 0xFF04 {
            Timer { counter: 0, ..self }.detect_edge_spec()
        } else if address == 0xFF05 {
            if self.overflow != Overflow::Reloaded {
                Timer { tima: value, overflow: Overflow::Idle, ..self }
            } else {
                self
            }
        } else if address == 0xFF06 {
            if self.overflow == Overflow::Reloaded {
                Timer { tma: value, tima: value, ..self }
            } else {
                Timer { tma: value, ..self }
            }
        } else if address == 0xFF07 {
            Timer { tac: value & 0x07, ..self }.detect_edge_spec()
        } else {
            self
        }
    }

    /// Post-boot state.
    ///
    /// The counter is nonzero because the boot ROM has been running for a while
    /// before the cartridge starts; 0xABCC is what a DMG leaves behind (DIV reads
    /// 0xAB). Games that seed a random number generator from DIV depend on this.
    pub fn new() -> (r: Self)
        ensures
            r == Self::initial(),
    {
        Timer {
            counter: 0xABCC,
            tima: 0x00,
            tma: 0x00,
            tac: 0xF8,
            last_edge_bit: false,
            overflow: Overflow::Idle,
        }
    }

    /// Which bit of the 16-bit counter TAC selects, as that bit's value.
    fn selected_bit(tac: u8) -> (r: u16)
        ensures
            r == selected_period(tac),
    {
        let slot = tac % 4;
        if slot == 0 {
            512  // bit 9: 4096 Hz
        } else if slot == 1 {
            8  // bit 3: 262144 Hz
        } else if slot == 2 {
            32  // bit 5: 65536 Hz
        } else {
            128  // bit 7: 16384 Hz
        }
    }

    fn timer_enabled(&self) -> (r: bool)
        ensures
            r == ((self.tac / 4) % 2 == 1),
    {
        (self.tac / 4) % 2 == 1
    }

    /// The value the edge detector watches: the selected counter bit ANDed with the
    /// enable bit. TIMA increments whenever this goes from true to false.
    fn edge_bit(&self) -> (r: bool)
        ensures
            r == self.edge_bit_spec(),
    {
        let bit = (self.counter / Self::selected_bit(self.tac)) % 2 == 1;
        bit && self.timer_enabled()
    }

    /// Advances the timer by one M-cycle (4 T-cycles).
    pub fn tick(&mut self, interrupts: &mut InterruptState)
        ensures
            (*final(self), *final(interrupts)) == old(self).tick_spec(*old(interrupts)),
    {
        // Resolve a pending overflow from the previous M-cycle first: TIMA read as
        // 0x00 for exactly one cycle, and now the reload lands.
        match self.overflow {
            Overflow::Pending => {
                self.tima = self.tma;
                self.overflow = Overflow::Reloaded;
                interrupts.request(Interrupt::Timer);
            },
            Overflow::Reloaded => self.overflow = Overflow::Idle,
            Overflow::Idle => {},
        }

        // The counter runs at the T-cycle rate, so one M-cycle is four steps. They
        // have to be stepped individually because the fastest TAC setting watches
        // bit 3, which changes within a single M-cycle.
        self.count();
        self.count();
        self.count();
        self.count();
    }

    /// One T-cycle: the counter moves on and the edge detector looks at it.
    fn count(&mut self)
        ensures
            *final(self) == old(self).count_spec(),
    {
        self.counter = ((self.counter as u32 + 1) % 65536) as u16;
        self.detect_edge();
    }

    /// Increments TIMA if the watched bit just fell.
    fn detect_edge(&mut self)
        ensures
            *final(self) == old(self).detect_edge_spec(),
    {
        let current = self.edge_bit();
        if self.last_edge_bit && !current {
            self.increment_tima();
        }
        self.last_edge_bit = current;
    }

    fn increment_tima(&mut self)
        ensures
            *final(self) == old(self).increment_tima_spec(),
    {
        if self.tima == 0xFF {
            // Leave TIMA at 0x00 and schedule the reload for the next M-cycle.
            self.tima = 0;
            self.overflow = Overflow::Pending;
        } else {
            self.tima = self.tima + 1;
        }
    }

    pub fn read(&self, address: u16) -> (r: u8)
        ensures
            r == self.read_spec(address),
    {
        if address == 0xFF04 {
            (self.counter / 256) as u8
        } else if address == 0xFF05 {
            self.tima
        } else if address == 0xFF06 {
            self.tma
        } else if address == 0xFF07 {
            // Only 3 bits of TAC exist; the rest read as 1.
            self.tac | 0xF8
        } else {
            0xFF
        }
    }

    pub fn write(&mut self, address: u16, value: u8)
        ensures
            *final(self) == old(self).write_spec(address, value),
    {
        if address == 0xFF04 {
            // Any write resets the whole counter. If the watched bit was high, this
            // is a falling edge and TIMA increments — a real, observable side effect
            // of writing DIV, not an accident of this implementation.
            self.counter = 0;
            self.detect_edge();
        } else if address == 0xFF05 {
            // A write during the reload cycle is ignored: TMA has already won.
            // During the pending cycle, though, the write lands and cancels the
            // overflow, so no interrupt fires.
            if self.overflow != Overflow::Reloaded {
                self.tima = value;
                self.overflow = Overflow::Idle;
            }
        } else if address == 0xFF06 {
            self.tma = value;
            // Writing TMA on the reload cycle also updates TIMA, since the
            // reload is wired straight through.
            if self.overflow == Overflow::Reloaded {
                self.tima = value;
            }
        } else if address == 0xFF07 {
            // Changing frequency or disabling the timer can drop the watched bit
            // from 1 to 0, which the edge detector sees as a tick.
            self.tac = value & 0x07;
            self.detect_edge();
        }
    }

    /// DIV as the CPU sees it. Exposed for tests and tracing.
    pub fn div(&self) -> (r: u8)
        ensures
            r == self.read_spec(0xFF04),
    {
        (self.counter / 256) as u8
    }
}

impl Default for Timer {
    fn default() -> (r: Self)
        ensures
            r == Timer::initial(),
    {
        Self::new()
    }
}

/// Every M-cycle moves the system counter on by exactly four, whatever the timer
/// registers say: DIV runs even while TIMA is disabled.
pub proof fn lemma_tick_counts_four(t: Timer, interrupts: InterruptState)
    ensures
        t.tick_spec(interrupts).0.counter == (t.counter + 4) % 65536,
{
}

/// A DIV write always reads back as zero, whatever was written.
pub proof fn lemma_div_write_resets(t: Timer, value: u8)
    ensures
        t.write_spec(0xFF04, value).read_spec(0xFF04) == 0,
        t.write_spec(0xFF04, value).counter == 0,
{
}

/// With the timer disabled, a tick never raises the timer interrupt on its own
/// account and TIMA only changes through an overflow already in the pipeline.
pub proof fn lemma_disabled_timer_is_frozen(t: Timer, interrupts: InterruptState)
    requires
        (t.tac / 4) % 2 == 0,
        !t.last_edge_bit,
        t.overflow == Overflow::Idle,
    ensures
        t.tick_spec(interrupts).0.tima == t.tima,
        t.tick_spec(interrupts).1 == interrupts,
{
}

/// An overflow raises the timer interrupt one M-cycle late: the tick in which TIMA
/// overflows requests nothing, and the next one requests it, having loaded TIMA
/// from TMA.
pub proof fn lemma_overflow_interrupt_is_one_cycle_late(t: Timer, interrupts: InterruptState)
    requires
        t.overflow == Overflow::Idle,
        t.tick_spec(interrupts).0.overflow == Overflow::Pending,
    ensures
        t.tick_spec(interrupts).1 == interrupts,
        ({
            let (t1, i1) = t.tick_spec(interrupts);
            let (t2, i2) = t1.tick_spec(i1);
            &&& i2 == interrupts.request_spec(Interrupt::Timer)
            &&& t2.tma == t.tma
        }),
{
}

/// Writing TIMA in the cycle after an overflow cancels it: the value written stays,
/// and the next tick neither reloads from TMA nor requests the interrupt.
pub proof fn lemma_tima_write_cancels_a_pending_overflow(
    t: Timer,
    value: u8,
    interrupts: InterruptState,
)
    requires
        t.overflow == Overflow::Pending,
    ensures
        t.write_spec(0xFF05, value).read_spec(0xFF05) == value,
        t.write_spec(0xFF05, value).tick_spec(interrupts).1 == interrupts,
{
}

/// A TIMA write in the cycle TMA is being loaded is ignored.
pub proof fn lemma_tima_write_during_reload_is_ignored(t: Timer, value: u8)
    requires
        t.overflow == Overflow::Reloaded,
    ensures
        t.write_spec(0xFF05, value) == t,
{
}

/// The timer remembers the watched signal as it currently is: a power-on timer does,
/// and every tick and every register write keeps it so.
pub proof fn lemma_edge_memory_is_current(t: Timer, interrupts: InterruptState, address: u16, value: u8)
    requires
        t.last_edge_bit == t.edge_bit_spec(),
    ensures
        Timer::initial().last_edge_bit == Timer::initial().edge_bit_spec(),
        t.tick_spec(interrupts).0.last_edge_bit == t.tick_spec(interrupts).0.edge_bit_spec(),
        t.write_spec(address, value).last_edge_bit == t.write_spec(address, value).edge_bit_spec(),
{
    assert((0xF8u8 / 4) % 2 == 0);
}

/// TIMA counts falling edges of the watched signal, wherever they come from: a DIV
/// write or a TAC write that takes the signal from 1 to 0 increments it, and one that
/// does not leaves it alone.
pub proof fn lemma_writes_tick_tima_on_a_falling_edge(t: Timer, address: u16, value: u8)
    requires
        address == 0xFF04 || address == 0xFF07,
        t.last_edge_bit == t.edge_bit_spec(),
    ensures
        ({
            let after = t.write_spec(address, value);
            &&& t.edge_bit_spec() && !after.edge_bit_spec() ==> after.tima == (t.tima + 1) % 256
            &&& !(t.edge_bit_spec() && !after.edge_bit_spec()) ==> after.tima == t.tima
        }),
{
}

/// The timer and the interrupt flags after `n` M-cycles.
pub open spec fn timer_after(t: Timer, interrupts: InterruptState, n: nat) -> (Timer, InterruptState)
    decreases n,
{
    if n == 0 {
        (t, interrupts)
    } else {
        let (next, ints) = t.tick_spec(interrupts);
        timer_after(next, ints, (n - 1) as nat)
    }
}

/// The timer at a given count since a reset, before the first falling edge.
pub open spec fn counted_to(t: Timer, count: int) -> Timer {
    Timer { counter: count as u16, last_edge_bit: count >= selected_period(t.tac), ..t }
}

proof fn lemma_before_the_edge(t: Timer, interrupts: InterruptState, j: nat)
    requires
        t.counter == 0,
        (t.tac / 4) % 2 == 1,
        !t.last_edge_bit,
        t.overflow == Overflow::Idle,
        4 * j < 2 * selected_period(t.tac),
    ensures
        timer_after(t, interrupts, j) == (counted_to(t, 4 * j as int), interrupts),
    decreases j,
{
    let p = selected_period(t.tac);
    if j > 0 {
        let k = (j - 1) as nat;
        lemma_before_the_edge(t, interrupts, k);
        let before = counted_to(t, 4 * k as int);
        assert(timer_after(t, interrupts, j) == timer_after(
            t.tick_spec(interrupts).0,
            t.tick_spec(interrupts).1,
            k,
        ));
        lemma_tick_before_the_edge(t, 4 * k as int);
        lemma_after_one_more(t, interrupts, k);
    }
}

/// Below twice the period, the watched bit is set exactly from the period on.
proof fn lemma_watched_bit(c: int, p: int)
    requires
        p == 8 || p == 32 || p == 128 || p == 512,
        0 <= c < 2 * p,
    ensures
        ((c / p) % 2 == 1) == (c >= p),
        (c / p) % 2 == 1 ==> c / p == 1,
{
    if c >= p {
        assert(c / p == 1);
    } else {
        assert(c / p == 0);
    }
}

/// One tick below the edge counts four more and leaves TIMA alone.
proof fn lemma_tick_before_the_edge(t: Timer, count: int)
    requires
        (t.tac / 4) % 2 == 1,
        t.overflow == Overflow::Idle,
        0 <= count,
        count + 4 < 2 * selected_period(t.tac),
    ensures
        forall|interrupts: InterruptState| #[trigger] counted_to(t, count).tick_spec(interrupts)
            == (counted_to(t, count + 4), interrupts),
{
    let p = selected_period(t.tac) as int;
    lemma_watched_bit(count, p);
    lemma_watched_bit(count + 1, p);
    lemma_watched_bit(count + 2, p);
    lemma_watched_bit(count + 3, p);
    lemma_watched_bit(count + 4, p);
    let t0 = counted_to(t, count);
    let t1 = t0.count_spec();
    let t2 = t1.count_spec();
    let t3 = t2.count_spec();
    let t4 = t3.count_spec();
    assert(t1 == counted_to(t, count + 1));
    assert(t2 == counted_to(t, count + 2));
    assert(t3 == counted_to(t, count + 3));
    assert(t4 == counted_to(t, count + 4));
}

proof fn lemma_after_one_more(t: Timer, interrupts: InterruptState, k: nat)
    requires
        timer_after(t, interrupts, k) == (counted_to(t, 4 * k as int), interrupts),
        (t.tac / 4) % 2 == 1,
        t.overflow == Overflow::Idle,
        4 * k + 4 < 2 * selected_period(t.tac),
        forall|ints: InterruptState| #[trigger] counted_to(t, 4 * k as int).tick_spec(ints)
            == (counted_to(t, 4 * k as int + 4), ints),
    ensures
        timer_after(t, interrupts, k + 1) == (counted_to(t, 4 * (k + 1) as int), interrupts),
    decreases k,
{
    lemma_timer_after_last(t, interrupts, k);
}

/// `n + 1` ticks are `n` ticks and then one more.
proof fn lemma_timer_after_last(t: Timer, interrupts: InterruptState, n: nat)
    ensures
        timer_after(t, interrupts, n + 1) == timer_after(t, interrupts, n).0.tick_spec(
            timer_after(t, interrupts, n).1,
        ),
    decreases n,
{
    let (next, ints) = t.tick_spec(interrupts);
    assert(timer_after(t, interrupts, n + 1) == timer_after(next, ints, n));
    if n == 0 {
        assert(timer_after(next, ints, 0) == (next, ints));
        assert(timer_after(t, interrupts, 0) == (t, interrupts));
    } else {
        lemma_timer_after_last(next, ints, (n - 1) as nat);
        assert(timer_after(t, interrupts, n) == timer_after(next, ints, (n - 1) as nat));
    }
}

/// TIMA counts at the selected rate: from a reset counter with the timer enabled,
/// it holds still for one period less one M-cycle and steps on the period itself —
/// 256, 4, 16 or 64 M-cycles for the four TAC settings — with no interrupt on the way.
pub proof fn lemma_tima_ticks_once_per_period(t: Timer, interrupts: InterruptState)
    requires
        t.counter == 0,
        (t.tac / 4) % 2 == 1,
        !t.last_edge_bit,
        t.overflow == Overflow::Idle,
        t.tima < 0xFF,
    ensures
        ({
            let n = (selected_period(t.tac) / 2) as nat;
            &&& n == (if t.tac % 4 == 0 {
                256nat
            } else if t.tac % 4 == 1 {
                4nat
            } else if t.tac % 4 == 2 {
                16nat
            } else {
                64nat
            })
            &&& timer_after(t, interrupts, (n - 1) as nat).0.tima == t.tima
            &&& timer_after(t, interrupts, n).0.tima == t.tima + 1
            &&& timer_after(t, interrupts, n).1 == interrupts
        }),
{
    let p = selected_period(t.tac) as int;
    let n = (p / 2) as nat;
    let k = (n - 1) as nat;
    assert(4 * k == 2 * p - 4);
    lemma_before_the_edge(t, interrupts, k);
    lemma_timer_after_last(t, interrupts, k);
    lemma_tick_onto_the_edge(t, 4 * k as int, interrupts);
}

/// The tick that reaches twice the period takes the watched bit from 1 to 0, and
/// TIMA steps.
proof fn lemma_tick_onto_the_edge(t: Timer, count: int, interrupts: InterruptState)
    requires
        (t.tac / 4) % 2 == 1,
        t.overflow == Overflow::Idle,
        t.tima < 0xFF,
        count == 2 * selected_period(t.tac) - 4,
    ensures
        counted_to(t, count).tick_spec(interrupts).0.tima == t.tima + 1,
        counted_to(t, count).tick_spec(interrupts).1 == interrupts,
{
    let p = selected_period(t.tac) as int;
    lemma_watched_bit(count, p);
    lemma_watched_bit(count + 1, p);
    lemma_watched_bit(count + 2, p);
    lemma_watched_bit(count + 3, p);
    assert((2 * p) / p == 2);
    let t0 = counted_to(t, count);
    let t1 = t0.count_spec();
    let t2 = t1.count_spec();
    let t3 = t2.count_spec();
    assert(t1 == counted_to(t, count + 1));
    assert(t2 == counted_to(t, count + 2));
    assert(t3 == counted_to(t, count + 3));
    assert(t3.count_spec().tima == t.tima + 1);
}

/// A disabled timer stays frozen however long it runs: TIMA keeps its value and no
/// interrupt is raised, while the system counter, and with it DIV, goes on counting
/// four per M-cycle.
pub proof fn lemma_disabled_timer_stays_frozen(t: Timer, interrupts: InterruptState, n: nat)
    requires
        (t.tac / 4) % 2 == 0,
        !t.last_edge_bit,
        t.overflow == Overflow::Idle,
    ensures
        timer_after(t, interrupts, n).0.tima == t.tima,
        timer_after(t, interrupts, n).1 == interrupts,
        timer_after(t, interrupts, n).0.counter == (t.counter + 4 * n) % 65536,
    decreases n,
{
    if n > 0 {
        let (next, ints) = t.tick_spec(interrupts);
        lemma_disabled_timer_is_frozen(t, interrupts);
        lemma_tick_counts_four(t, interrupts);
        lemma_disabled_timer_stays_frozen(next, ints, (n - 1) as nat);
        let x = (t.counter + 4) % 65536;
        let y = 4 * (n - 1);
        vstd::arithmetic::div_mod::lemma_add_mod_noop(t.counter + 4, y, 65536);
        vstd::arithmetic::div_mod::lemma_add_mod_noop(x, y, 65536);
        vstd::arithmetic::div_mod::lemma_small_mod(x as nat, 65536);
        assert(next.counter == x);
    } else {
        vstd::arithmetic::div_mod::lemma_small_mod(t.counter as nat, 65536);
    }
}

} // verus!
