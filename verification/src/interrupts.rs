//! Interrupt flags and the five interrupt sources.
//!
//! Two registers control interrupts, and they have the same bit layout:
//!
//! - `IF` (0xFF0F) — which interrupts are *requested*. Hardware sets these bits;
//!   the handler clears them.
//! - `IE` (0xFFFF) — which interrupts are *enabled*. The program sets these.
//!
//! An interrupt fires when the same bit is set in both, and the CPU's `IME` flag is
//! on. The bit order is a priority order: lower bits win when several are pending at
//! once.
use vstd::prelude::*;

verus! {

/// The five interrupt sources, in hardware priority order.
#[derive(Debug, Clone, Copy, PartialEq, Eq, Structural)]
pub enum Interrupt {
    /// The PPU finished drawing a frame. The main synchronisation point for games.
    VBlank,
    /// A PPU status condition the program asked to be told about.
    Stat,
    /// The timer overflowed.
    Timer,
    /// A serial transfer completed.
    Serial,
    /// A button was pressed.
    Joypad,
}

impl Interrupt {
    /// The bit this source owns in `IF` and `IE`.
    pub open spec fn bit_spec(self) -> u8 {
        match self {
            Interrupt::VBlank => 0,
            Interrupt::Stat => 1,
            Interrupt::Timer => 2,
            Interrupt::Serial => 3,
            Interrupt::Joypad => 4,
        }
    }

    /// The single-bit mask of this source.
    pub open spec fn mask_spec(self) -> u8 {
        match self {
            Interrupt::VBlank => 0x01,
            Interrupt::Stat => 0x02,
            Interrupt::Timer => 0x04,
            Interrupt::Serial => 0x08,
            Interrupt::Joypad => 0x10,
        }
    }

    /// The vector the CPU jumps to: 8 bytes apart from 0x0040.
    pub open spec fn handler_spec(self) -> u16 {
        (0x0040 + self.bit_spec() * 8) as u16
    }

    /// Every source, in the order the CPU checks them.
    pub fn all() -> (r: [Interrupt; 5])
        ensures
            r@ == seq![Interrupt::VBlank, Interrupt::Stat, Interrupt::Timer, Interrupt::Serial, Interrupt::Joypad],
    {
        let r = [
            Interrupt::VBlank,
            Interrupt::Stat,
            Interrupt::Timer,
            Interrupt::Serial,
            Interrupt::Joypad,
        ];
        assert(r@ =~= seq![Interrupt::VBlank, Interrupt::Stat, Interrupt::Timer, Interrupt::Serial, Interrupt::Joypad]);
        r
    }

    pub fn bit(self) -> (r: u8)
        ensures
            r == self.bit_spec(),
            r < 5,
    {
        match self {
            Interrupt::VBlank => 0,
            Interrupt::Stat => 1,
            Interrupt::Timer => 2,
            Interrupt::Serial => 3,
            Interrupt::Joypad => 4,
        }
    }

    pub fn mask(self) -> (r: u8)
        ensures
            r == self.mask_spec(),
            r == 1u8 << self.bit_spec(),
    {
        let b = self.bit();
        let r: u8 = 1u8 << b;
        assert(b < 5 ==> (1u8 << b == if b == 0 { 1u8 } else if b == 1 { 2u8 } else if b == 2 { 4u8 } else if b == 3 { 8u8 } else { 16u8 })) by (bit_vector);
        r
    }

    /// The fixed address the CPU jumps to when this interrupt is dispatched.
    ///
    /// They sit 8 bytes apart starting at 0x0040 — the same spacing as the RST
    /// vectors, and for the same reason: 8 bytes is enough for a jump to the real
    /// handler.
    pub fn handler(self) -> (r: u16)
        ensures
            r == self.handler_spec(),
    {
        0x0040 + self.bit() as u16 * 8
    }
}

/// The highest-priority source set in `active`, looking only at the low five bits.
pub open spec fn highest_priority(active: u8) -> Option<Interrupt> {
    if active & 0x01 != 0 {
        Some(Interrupt::VBlank)
    } else if active & 0x02 != 0 {
        Some(Interrupt::Stat)
    } else if active & 0x04 != 0 {
        Some(Interrupt::Timer)
    } else if active & 0x08 != 0 {
        Some(Interrupt::Serial)
    } else if active & 0x10 != 0 {
        Some(Interrupt::Joypad)
    } else {
        None
    }
}

/// The `IF`/`IE` register pair.
#[derive(Debug, Clone, Copy)]
pub struct InterruptState {
    /// `IF` at 0xFF0F. Only the low 5 bits are wired up.
    pub requested: u8,
    /// `IE` at 0xFFFF. All 8 bits are readable and writable even though only 5 do
    /// anything — the reference calls the top three `IE_UNUSED`.
    pub enabled: u8,
}

impl Default for InterruptState {
    fn default() -> (r: Self)
        ensures
            r.requested == 0,
            r.enabled == 0,
    {
        InterruptState { requested: 0, enabled: 0 }
    }
}

impl InterruptState {
    /// The source the CPU would service next, if any.
    pub open spec fn pending_spec(self) -> Option<Interrupt> {
        highest_priority(self.requested & self.enabled & 0x1F)
    }

    /// `IF` after `interrupt` is requested.
    pub open spec fn request_spec(self, interrupt: Interrupt) -> InterruptState {
        InterruptState { requested: self.requested | interrupt.mask_spec(), ..self }
    }

    /// `IF` after `interrupt` is acknowledged.
    pub open spec fn acknowledge_spec(self, interrupt: Interrupt) -> InterruptState {
        InterruptState { requested: self.requested & !interrupt.mask_spec(), ..self }
    }

    /// Flags a source as requesting service. Called by the timer, PPU, and so on.
    pub fn request(&mut self, interrupt: Interrupt)
        ensures
            *final(self) == old(self).request_spec(interrupt),
    {
        self.requested = self.requested | interrupt.mask();
    }

    pub fn acknowledge(&mut self, interrupt: Interrupt)
        ensures
            *final(self) == old(self).acknowledge_spec(interrupt),
    {
        self.requested = self.requested & !interrupt.mask();
    }

    /// The highest-priority interrupt that is both requested and enabled.
    ///
    /// Deliberately independent of `IME`: a halted CPU wakes on a pending interrupt
    /// even when `IME` is off, so the two questions ("is one pending?" and "may we
    /// dispatch it?") have to stay separate.
    pub fn pending(&self) -> (r: Option<Interrupt>)
        ensures
            r == self.pending_spec(),
    {
        let active = self.requested & self.enabled & 0x1F;
        if active & Interrupt::VBlank.mask() != 0 {
            Some(Interrupt::VBlank)
        } else if active & Interrupt::Stat.mask() != 0 {
            Some(Interrupt::Stat)
        } else if active & Interrupt::Timer.mask() != 0 {
            Some(Interrupt::Timer)
        } else if active & Interrupt::Serial.mask() != 0 {
            Some(Interrupt::Serial)
        } else if active & Interrupt::Joypad.mask() != 0 {
            Some(Interrupt::Joypad)
        } else {
            None
        }
    }

    /// True if any enabled interrupt is requested.
    pub fn any_pending(&self) -> (r: bool)
        ensures
            r == (self.requested & self.enabled & 0x1F != 0),
            r == self.pending_spec().is_some(),
    {
        let active = self.requested & self.enabled & 0x1F;
        let r = self.requested;
        let e = self.enabled;
        assert((r & e & 0x1F) & 0x1F == (r & e & 0x1F)) by (bit_vector);
        assert((active & 0x1F == active) ==> (active != 0 <==> (active & 0x01 != 0 || active & 0x02 != 0 || active & 0x04 != 0 || active & 0x08 != 0 || active & 0x10 != 0))) by (bit_vector);
        active != 0
    }

    /// Reads `IF`. The unused top three bits read back as 1 on real hardware.
    pub fn read_if(&self) -> (r: u8)
        ensures
            r == self.requested | 0xE0,
    {
        self.requested | 0xE0
    }

    pub fn write_if(&mut self, value: u8)
        ensures
            final(self).requested == value & 0x1F,
            final(self).enabled == old(self).enabled,
    {
        self.requested = value & 0x1F;
    }
}

/// Requesting a source and then acknowledging it leaves no trace of it in `IF`, and
/// touches no other source's bit.
pub proof fn lemma_request_then_acknowledge(state: InterruptState, interrupt: Interrupt)
    ensures
        state.request_spec(interrupt).acknowledge_spec(interrupt).requested
            == state.requested & !interrupt.mask_spec(),
        state.request_spec(interrupt).acknowledge_spec(interrupt).enabled == state.enabled,
{
    let r = state.requested;
    let m = interrupt.mask_spec();
    assert((r | m) & !m == r & !m) by (bit_vector);
}

/// A source that is requested and enabled is pending, unless a higher-priority one
/// is too; in particular the pending source is always one that is requested and
/// enabled.
pub proof fn lemma_pending_is_requested_and_enabled(state: InterruptState)
    ensures
        state.pending_spec() matches Some(i) ==> (state.requested & i.mask_spec() != 0
            && state.enabled & i.mask_spec() != 0),
        state.pending_spec() is None <==> state.requested & state.enabled & 0x1F == 0,
        state.pending_spec() matches Some(i) ==> forall|j: Interrupt|
            #![trigger j.bit_spec()]
            j.bit_spec() < i.bit_spec() ==> state.requested & state.enabled & 0x1F & j.mask_spec()
                == 0,
{
    let r = state.requested;
    let e = state.enabled;
    assert(forall|m: u8| (m == 1u8 || m == 2u8 || m == 4u8 || m == 8u8 || m == 16u8) ==> ((r & e & 0x1F) & m != 0 ==> (r & m != 0 && e & m != 0))) by (bit_vector);
    assert(r & e & 0x1F == 0 <==> ((r & e & 0x1F) & 0x01 == 0 && (r & e & 0x1F) & 0x02 == 0 && (r & e & 0x1F) & 0x04 == 0 && (r & e & 0x1F) & 0x08 == 0 && (r & e & 0x1F) & 0x10 == 0)) by (bit_vector);
}

} // verus!
