//! The timer: DIV, TIMA's edge detector, overflow and reload.

use game_koi::interrupts::{Interrupt, InterruptState};
use game_koi::timer::Timer;

fn fresh(tac: u8) -> (Timer, InterruptState) {
    let mut timer = Timer::new();
    timer.counter = 0;
    timer.last_edge_bit = false;
    timer.tac = tac;
    let interrupts = InterruptState {
        enabled: 0xFF,
        ..Default::default()
    };
    (timer, interrupts)
}

fn tick_n(timer: &mut Timer, interrupts: &mut InterruptState, n: usize) {
    for _ in 0..n {
        timer.tick(interrupts);
    }
}

#[test]
    fn div_is_the_high_byte_of_the_counter() {
        let (mut timer, mut ints) = fresh(0x00);
        // 256 T-cycles = 64 M-cycles per DIV increment.
        tick_n(&mut timer, &mut ints, 63);
        assert_eq!(timer.div(), 0);
        tick_n(&mut timer, &mut ints, 1);
        assert_eq!(timer.div(), 1);
    }

#[test]
    fn div_runs_even_when_the_timer_is_disabled() {
        // TAC bit 2 clear: TIMA is frozen but DIV keeps counting.
        let (mut timer, mut ints) = fresh(0x00);
        tick_n(&mut timer, &mut ints, 64);
        assert_eq!(timer.div(), 1);
        assert_eq!(timer.tima, 0, "TIMA must not run while disabled");
    }

#[test]
    fn writing_div_resets_the_whole_counter() {
        let (mut timer, mut ints) = fresh(0x00);
        tick_n(&mut timer, &mut ints, 100);
        assert_ne!(timer.div(), 0);
        timer.write(0xFF04, 0xFF); // The value written is irrelevant.
        assert_eq!(timer.div(), 0);
        assert_eq!(timer.counter, 0);
    }

#[test]
    fn tima_increments_at_the_selected_frequency() {
        // TAC = 0b101: enabled, slot 1 -> bit 3 -> every 16 T-cycles = 4 M-cycles.
        let (mut timer, mut ints) = fresh(0x05);
        tick_n(&mut timer, &mut ints, 4);
        assert_eq!(timer.tima, 1);
        tick_n(&mut timer, &mut ints, 4);
        assert_eq!(timer.tima, 2);

        // TAC = 0b100: slot 0 -> bit 9 -> every 1024 T-cycles = 256 M-cycles.
        // Slot 0 is the slowest setting, not the fastest.
        let (mut timer, mut ints) = fresh(0x04);
        tick_n(&mut timer, &mut ints, 255);
        assert_eq!(timer.tima, 0);
        tick_n(&mut timer, &mut ints, 1);
        assert_eq!(timer.tima, 1);
    }

#[test]
    fn all_four_frequencies_are_distinct() {
        // M-cycles per TIMA tick for TAC slots 0..3.
        for (slot, expected) in [(0, 256), (1, 4), (2, 16), (3, 64)] {
            let (mut timer, mut ints) = fresh(0x04 | slot);
            tick_n(&mut timer, &mut ints, expected - 1);
            assert_eq!(timer.tima, 0, "slot {slot} ticked early");
            tick_n(&mut timer, &mut ints, 1);
            assert_eq!(timer.tima, 1, "slot {slot} did not tick at {expected}");
        }
    }

#[test]
    fn overflow_reloads_from_tma_and_requests_an_interrupt() {
        let (mut timer, mut ints) = fresh(0x05);
        timer.tma = 0xAB;
        timer.tima = 0xFF;

        // The tick that overflows: TIMA reads 0x00 and no interrupt yet.
        tick_n(&mut timer, &mut ints, 4);
        assert_eq!(timer.tima, 0x00, "TIMA reads zero for one cycle");
        assert!(!ints.any_pending(), "interrupt is delayed by one M-cycle");

        // The next cycle performs the reload and raises the interrupt.
        tick_n(&mut timer, &mut ints, 1);
        assert_eq!(timer.tima, 0xAB);
        assert_eq!(ints.pending(), Some(Interrupt::Timer));
    }

#[test]
    fn writing_tima_during_the_pending_cycle_cancels_the_overflow() {
        let (mut timer, mut ints) = fresh(0x05);
        timer.tma = 0xAB;
        timer.tima = 0xFF;
        tick_n(&mut timer, &mut ints, 4); // Overflow is now pending.

        timer.write(0xFF05, 0x42);
        tick_n(&mut timer, &mut ints, 1);
        assert_eq!(timer.tima, 0x42, "the write beat the reload");
        assert!(
            !ints.any_pending(),
            "cancelled overflow raises no interrupt"
        );
    }

#[test]
    fn writing_tima_during_the_reload_cycle_is_ignored() {
        let (mut timer, mut ints) = fresh(0x05);
        timer.tma = 0xAB;
        timer.tima = 0xFF;
        tick_n(&mut timer, &mut ints, 5); // Through the reload.
        assert_eq!(timer.tima, 0xAB);

        timer.write(0xFF05, 0x42);
        assert_eq!(timer.tima, 0xAB, "TMA already won this cycle");
    }

#[test]
    fn writing_tma_during_the_reload_cycle_also_sets_tima() {
        let (mut timer, mut ints) = fresh(0x05);
        timer.tma = 0xAB;
        timer.tima = 0xFF;
        tick_n(&mut timer, &mut ints, 5);

        timer.write(0xFF06, 0x99);
        assert_eq!(timer.tima, 0x99, "the reload is wired straight through");
    }

#[test]
    fn writing_div_can_tick_tima() {
        // The famous quirk. With bit 3 selected, run until it is high, then reset
        // the counter: that 1 -> 0 transition is a falling edge.
        let (mut timer, mut ints) = fresh(0x05);
        tick_n(&mut timer, &mut ints, 2); // counter = 8, so bit 3 is set.
        assert_eq!(timer.tima, 0);

        timer.write(0xFF04, 0x00);
        assert_eq!(timer.tima, 1, "resetting DIV produced a falling edge");
    }

#[test]
    fn disabling_the_timer_can_tick_tima() {
        let (mut timer, mut ints) = fresh(0x05);
        tick_n(&mut timer, &mut ints, 2); // Bit 3 high.
        assert_eq!(timer.tima, 0);

        timer.write(0xFF07, 0x01); // Clear the enable bit.
        assert_eq!(timer.tima, 1, "disabling dropped the ANDed bit to zero");
    }

#[test]
    fn changing_frequency_can_tick_tima() {
        // Start on bit 3 with it high, switch to bit 5 while that one is low.
        let (mut timer, mut ints) = fresh(0x05);
        tick_n(&mut timer, &mut ints, 2); // counter = 8: bit 3 set, bit 5 clear.
        assert_eq!(timer.tima, 0);

        timer.write(0xFF07, 0x06); // Enabled, slot 2 -> bit 5.
        assert_eq!(timer.tima, 1, "old bit fell, new bit was already low");
    }

#[test]
    fn tac_and_if_read_back_with_unused_bits_set() {
        let (mut timer, _) = fresh(0x00);
        timer.write(0xFF07, 0x05);
        assert_eq!(timer.read(0xFF07), 0xFD, "top 5 bits read as 1");
    }

#[test]
    fn timer_is_periodic_over_many_overflows() {
        // A sanity check on the whole pipeline: with TMA = 0xFE, TIMA overflows
        // every 2 ticks of the selected bit. Over a long run the interrupt count
        // should track that rate.
        let (mut timer, mut ints) = fresh(0x05); // bit 3: every 4 M-cycles
        timer.tma = 0xFE;
        timer.tima = 0xFE;

        let mut interrupts_seen = 0;
        for _ in 0..1000 {
            timer.tick(&mut ints);
            if ints.any_pending() {
                interrupts_seen += 1;
                ints.acknowledge(Interrupt::Timer);
            }
        }
        // Naively 1000 / (4 per increment * 2 increments) = 125, but each overflow
        // also spends an M-cycle in the reload delay before the interrupt is
        // raised, so the last one lands just past the end of the run.
        assert_eq!(interrupts_seen, 124);
    }
