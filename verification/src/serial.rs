//! The serial port: SB and SC.
//!
//! Two registers:
//!
//! - **SB** (0xFF01) — the 8-bit shift register holding the byte being transferred.
//! - **SC** (0xFF02) — control. `SIO_EN` (bit 7) starts a transfer; `SIO_CLK` (bit 0)
//!   selects whether this Game Boy supplies the clock (internal, 1) or waits for the
//!   other end to supply it (external, 0). Bits 1-6 are unimplemented.
//!
//! The community test ROMs report their results through this port: Blargg's suite
//! writes each character of "Passed" or "Failed" to SB and pokes SC to transmit.
//! Collecting those bytes turns a test ROM into a pass/fail signal.
//!
//! # What an unplugged link port does
//!
//! With no peer, each transferred bit shifts in a 1, so a completed transfer leaves
//! SB reading 0xFF. A transfer using the *external* clock never completes at all,
//! since nothing is driving the clock — so those are left pending forever, which is
//! what hardware does.
use vstd::prelude::*;
use crate::interrupts::{Interrupt, InterruptState};
use crate::text::{all_ascii, ascii_chars, lossy_text, utf8_lossy};

verus! {

/// Cycles for one bit at the normal serial rate.
///
/// The link runs at 8192 bits/second, so one bit takes 512 T-cycles = 128 M-cycles,
/// and a byte takes eight of those.
pub const M_CYCLES_PER_BIT: u32 = 128;

/// The state of the port, as values.
pub struct SerialModel {
    pub data: u8,
    pub control: u8,
    pub bit_timer: u32,
    pub bits_left: u8,
    pub output: Seq<u8>,
}

impl SerialModel {
    /// The port at power-on: idle, nothing sent.
    pub open spec fn initial() -> SerialModel {
        SerialModel { data: 0, control: 0, bit_timer: 0, bits_left: 0, output: Seq::empty() }
    }

    pub open spec fn tick_spec(self, interrupts: InterruptState) -> (SerialModel, InterruptState) {
        if self.control & 0x80 == 0 || self.control & 0x01 == 0 || self.bits_left == 0 {
            (self, interrupts)
        } else if self.bit_timer > 1 {
            (SerialModel { bit_timer: (self.bit_timer - 1) as u32, ..self }, interrupts)
        } else {
            let shifted = SerialModel {
                data: (((self.data % 128) * 2) + 1) as u8,
                bits_left: (self.bits_left - 1) as u8,
                bit_timer: M_CYCLES_PER_BIT,
                ..self
            };
            if shifted.bits_left == 0 {
                (
                    SerialModel { control: shifted.control & 0x7F, ..shifted },
                    interrupts.request_spec(Interrupt::Serial),
                )
            } else {
                (shifted, interrupts)
            }
        }
    }

    pub open spec fn read_spec(self, address: u16) -> u8 {
        if address == 0xFF01 {
            self.data
        } else if address == 0xFF02 {
            self.control | 0x7E
        } else {
            0xFF
        }
    }

    pub open spec fn write_spec(self, address: u16, value: u8) -> SerialModel {
        if address == 0xFF01 {
            SerialModel { data: value, ..self }
        } else if address == 0xFF02 {
            let control = value & 0x81;
            if control & 0x80 != 0 {
                SerialModel {
                    control,
                    output: self.output.push(self.data),
                    bits_left: 8,
                    bit_timer: M_CYCLES_PER_BIT,
                    ..self
                }
            } else {
                SerialModel { control, ..self }
            }
        } else {
            self
        }
    }
}

pub struct Serial {
    /// SB (0xFF01).
    data: u8,
    /// SC (0xFF02), stored as written; only bits 7 and 0 mean anything.
    control: u8,
    /// M-cycles remaining in the bit currently being shifted, if a transfer is
    /// running on our own clock.
    bit_timer: u32,
    /// Bits still to shift in the current transfer.
    bits_left: u8,
    /// Every byte the program has transmitted, in order.
    ///
    /// This is not hardware — it is the tap that makes test ROMs readable. Real
    /// hardware would just shift the bits out of the port and forget them.
    output: Vec<u8>,
}

impl View for Serial {
    type V = SerialModel;

    closed spec fn view(&self) -> SerialModel {
        SerialModel {
            data: self.data,
            control: self.control,
            bit_timer: self.bit_timer,
            bits_left: self.bits_left,
            output: self.output@,
        }
    }
}

impl Serial {
    pub fn new() -> (r: Self)
        ensures
            r@ == SerialModel::initial(),
    {
        Serial { data: 0x00, control: 0x00, bit_timer: 0, bits_left: 0, output: Vec::new() }
    }

    /// True while a transfer is in progress.
    fn transfer_requested(&self) -> (r: bool)
        ensures
            r == (self@.control & 0x80 != 0),
    {
        self.control & 0x80 != 0
    }

    /// True if this Game Boy supplies the clock. With no peer attached, a transfer
    /// on an external clock never advances.
    fn internal_clock(&self) -> (r: bool)
        ensures
            r == (self@.control & 0x01 != 0),
    {
        self.control & 0x01 != 0
    }

    /// Advances the port by one M-cycle.
    pub fn tick(&mut self, interrupts: &mut InterruptState)
        ensures
            (final(self)@, *final(interrupts)) == old(self)@.tick_spec(*old(interrupts)),
    {
        if !self.transfer_requested() || !self.internal_clock() || self.bits_left == 0 {
            return;
        }

        // A running transfer always has at least one cycle left in the current bit;
        // the last one completes it.
        if self.bit_timer > 1 {
            self.bit_timer = self.bit_timer - 1;
            return;
        }

        // One bit period elapsed: shift a bit out and a 1 in, since nothing is
        // driving the other end of the wire.
        self.data = (self.data % 128) * 2 + 1;
        self.bits_left = self.bits_left - 1;
        self.bit_timer = M_CYCLES_PER_BIT;

        if self.bits_left == 0 {
            // The transfer is complete: hardware clears the enable bit and raises
            // the serial interrupt.
            self.control = self.control & 0x7F;
            interrupts.request(Interrupt::Serial);
        }
    }

    pub fn read(&self, address: u16) -> (r: u8)
        ensures
            r == self@.read_spec(address),
    {
        if address == 0xFF01 {
            self.data
        } else if address == 0xFF02 {
            // The six unimplemented bits read back as 1, matching how other
            // partially-implemented registers behave.
            self.control | 0x7E
        } else {
            0xFF
        }
    }

    pub fn write(&mut self, address: u16, value: u8)
        ensures
            final(self)@ == old(self)@.write_spec(address, value),
    {
        if address == 0xFF01 {
            self.data = value;
        } else if address == 0xFF02 {
            self.control = value & 0x81;
            if self.transfer_requested() {
                // Capture the byte as it was handed to us. Doing it at the start of
                // the transfer rather than the end matters: by the time the transfer
                // finishes, SB has been shifted to 0xFF and the original byte is gone.
                self.output.push(self.data);
                self.bits_left = 8;
                self.bit_timer = M_CYCLES_PER_BIT;
            }
        }
    }

    /// Everything written to the port so far.
    pub fn output(&self) -> (r: &[u8])
        ensures
            r@ == self@.output,
    {
        self.output.as_slice()
    }

    /// The transmitted bytes as text, for reading test ROM results.
    pub fn output_text(&self) -> (r: String)
        ensures
            r@ == utf8_lossy(self@.output),
            all_ascii(self@.output) ==> r@ == ascii_chars(self@.output),
    {
        lossy_text(self.output.as_slice())
    }
}

impl Default for Serial {
    fn default() -> (r: Self)
        ensures
            r@ == SerialModel::initial(),
    {
        Self::new()
    }
}

/// Starting a transfer records SB at that moment, however the transfer ends: the
/// byte is appended to the output as the write to SC lands.
pub proof fn lemma_transfer_captures_at_start(port: SerialModel, value: u8)
    requires
        value & 0x80 != 0,
    ensures
        port.write_spec(0xFF02, value).output == port.output.push(port.data),
        port.write_spec(0xFF02, value).bits_left == 8,
{
    assert(value & 0x80 != 0 ==> (value & 0x81) & 0x80 != 0) by (bit_vector);
}

/// Ticks never touch the recorded output.
pub proof fn lemma_tick_keeps_output(port: SerialModel, interrupts: InterruptState)
    ensures
        port.tick_spec(interrupts).0.output == port.output,
{
}

/// The port after `n` M-cycles.
pub open spec fn run_ticks(port: SerialModel, interrupts: InterruptState, n: nat) -> (
    SerialModel,
    InterruptState,
)
    decreases n,
{
    if n == 0 {
        (port, interrupts)
    } else {
        let (next, ints) = port.tick_spec(interrupts);
        run_ticks(next, ints, (n - 1) as nat)
    }
}

/// M-cycles left in a running transfer.
pub open spec fn cycles_left(port: SerialModel) -> int {
    (port.bits_left - 1) * M_CYCLES_PER_BIT + port.bit_timer
}

/// `k` ones in the low bits, the most shifting in `k` ones can guarantee.
pub open spec fn low_ones(data: u8, k: int) -> bool {
    if k <= 0 {
        true
    } else if k == 1 {
        data % 2 == 1
    } else if k == 2 {
        data % 4 == 3
    } else if k == 3 {
        data % 8 == 7
    } else if k == 4 {
        data % 16 == 15
    } else if k == 5 {
        data % 32 == 31
    } else if k == 6 {
        data % 64 == 63
    } else if k == 7 {
        data % 128 == 127
    } else {
        data == 255
    }
}

/// A running transfer, short of its last cycle, loses one cycle per tick, shifts a 1
/// in at each bit boundary, and requests nothing.
proof fn lemma_transfer_progresses(port: SerialModel, interrupts: InterruptState, n: nat)
    requires
        port.control & 0x80 != 0,
        port.control & 0x01 != 0,
        1 <= port.bits_left <= 8,
        1 <= port.bit_timer <= M_CYCLES_PER_BIT,
        low_ones(port.data, 8 - port.bits_left),
        n < cycles_left(port),
    ensures
        ({
            let (q, ints) = run_ticks(port, interrupts, n);
            &&& ints == interrupts
            &&& q.control == port.control
            &&& q.output == port.output
            &&& 1 <= q.bits_left <= 8
            &&& 1 <= q.bit_timer <= M_CYCLES_PER_BIT
            &&& cycles_left(q) == cycles_left(port) - n
            &&& low_ones(q.data, 8 - q.bits_left)
        }),
    decreases n,
{
    if n > 0 {
        let (next, ints) = port.tick_spec(interrupts);
        assert(run_ticks(port, interrupts, n) == run_ticks(next, ints, (n - 1) as nat));
        if port.bit_timer <= 1 {
            lemma_shift_in_one(port.data, 8 - port.bits_left);
        }
        lemma_transfer_progresses(next, ints, (n - 1) as nat);
    }
}

/// Shifting a 1 in on the right adds one to the run of ones at the bottom.
proof fn lemma_shift_in_one(data: u8, k: int)
    requires
        0 <= k <= 7,
        low_ones(data, k),
    ensures
        low_ones((((data % 128) * 2) + 1) as u8, k + 1),
{
    let e = (((data % 128) * 2) + 1) as u8;
    assert(e % 2 == 1 && (data % 2 == 1 ==> e % 4 == 3) && (data % 4 == 3 ==> e % 8 == 7) && (data
        % 8 == 7 ==> e % 16 == 15) && (data % 16 == 15 ==> e % 32 == 31) && (data % 32 == 31 ==> e
        % 64 == 63) && (data % 64 == 63 ==> e % 128 == 127) && (data % 128 == 127 ==> e == 255))
        by (bit_vector)
        requires
            e == (((data % 128) * 2) + 1) as u8,
    ;
}

/// A transfer on the internal clock takes eight bits of 128 M-cycles: for the first
/// 1023 cycles it is still running and has requested nothing; the 1024th leaves SB
/// reading 0xFF (an unplugged port shifts in ones), clears SC's start bit, and
/// requests the serial interrupt.
pub proof fn lemma_transfer_takes_1024_cycles(port: SerialModel, interrupts: InterruptState)
    requires
        port.control & 0x80 != 0,
        port.control & 0x01 != 0,
        port.bits_left == 8,
        port.bit_timer == M_CYCLES_PER_BIT,
    ensures
        run_ticks(port, interrupts, 1023).0.control == port.control,
        run_ticks(port, interrupts, 1023).1 == interrupts,
        run_ticks(port, interrupts, 1024).0.data == 0xFF,
        run_ticks(port, interrupts, 1024).0.control & 0x80 == 0,
        run_ticks(port, interrupts, 1024).1 == interrupts.request_spec(Interrupt::Serial),
{
    lemma_transfer_progresses(port, interrupts, 1023);
    let (q, ints) = run_ticks(port, interrupts, 1023);
    assert(q.bits_left == 1 && q.bit_timer == 1);
    assert(q.data % 128 == 127);
    lemma_run_ticks_last(port, interrupts, 1023);
    assert(run_ticks(port, interrupts, 1024) == q.tick_spec(ints));
    let c = q.control;
    assert((c & 0x7F) & 0x80 == 0) by (bit_vector);
}

/// Running one more tick is ticking what the others left.
proof fn lemma_run_ticks_last(port: SerialModel, interrupts: InterruptState, n: nat)
    ensures
        run_ticks(port, interrupts, n + 1) == ({
            let (q, ints) = run_ticks(port, interrupts, n);
            q.tick_spec(ints)
        }),
    decreases n,
{
    let (next, ints) = port.tick_spec(interrupts);
    assert(run_ticks(port, interrupts, n + 1) == run_ticks(next, ints, n));
    if n == 0 {
        assert(run_ticks(next, ints, 0) == (next, ints));
    } else {
        assert(run_ticks(port, interrupts, n) == run_ticks(next, ints, (n - 1) as nat));
        lemma_run_ticks_last(next, ints, (n - 1) as nat);
    }
}

/// A transfer on an external clock never advances: this machine has nothing on the
/// other end of the cable to clock it.
pub proof fn lemma_external_clock_never_advances(s: SerialModel, interrupts: InterruptState)
    requires
        s.control & 0x01 == 0,
    ensures
        s.tick_spec(interrupts) == (s, interrupts),
{
}

} // verus!
