//! The APU's register file, power switch and DIV-driven sequencer.

use game_koi::apu::{Apu, READ_MASKS};

/// One full pass of the 8-step sequencer takes 8 * 2048 M-cycles.
fn powered() -> Apu {
    let mut apu = Apu::new();
    apu.write(0xFF26, 0x80);
    apu.write(0xFF24, 0x77); // full volume both sides
    apu.write(0xFF25, 0xFF); // everything to both sides
    apu
}

#[test]
fn registers_read_back_with_the_write_only_bits_set() {
    let mut apu = powered();
    apu.write(0xFF11, 0x3F); // duty 0, length 63
    // The length field is write-only, so only the duty bits come back.
    assert_eq!(apu.read(0xFF11), 0x3F, "duty 0, plus the write-only mask");

    apu.write(0xFF11, 0xC0); // duty 3
    assert_eq!(apu.read(0xFF11), 0xC0 | 0x3F);

    // NR13 is entirely write-only.
    apu.write(0xFF13, 0x12);
    assert_eq!(apu.read(0xFF13), 0xFF);
}

#[test]
fn nonexistent_registers_read_as_ones() {
    let apu = powered();
    assert_eq!(apu.read(0xFF15), 0xFF, "NR20 does not exist");
    assert_eq!(apu.read(0xFF1F), 0xFF, "NR40 does not exist");
}

#[test]
fn powering_off_clears_the_registers_and_locks_them() {
    let mut apu = powered();
    apu.write(0xFF12, 0xF0);
    assert_eq!(apu.read(0xFF12), 0xF0);

    apu.write(0xFF26, 0x00);
    assert_eq!(apu.read(0xFF12), 0x00, "cleared by the power-off");

    // Writes are ignored until the power comes back.
    apu.write(0xFF12, 0xF0);
    assert_eq!(apu.read(0xFF12), 0x00);
    apu.write(0xFF26, 0x80);
    apu.write(0xFF12, 0xF0);
    assert_eq!(apu.read(0xFF12), 0xF0);
}

#[test]
fn wave_ram_survives_a_power_cycle_and_ignores_the_power_state() {
    let mut apu = Apu::new();
    // Powered off, and wave RAM still takes writes.
    apu.write(0xFF30, 0xAB);
    assert_eq!(apu.read(0xFF30), 0xAB);

    apu.write(0xFF26, 0x80);
    assert_eq!(apu.read(0xFF30), 0xAB);
    apu.write(0xFF26, 0x00);
    assert_eq!(apu.read(0xFF30), 0xAB, "not cleared with the rest");
}

#[test]
fn nr52_reports_channels_not_dacs() {
    let mut apu = powered();
    assert_eq!(apu.read(0xFF26) & 0x0F, 0, "nothing playing yet");

    // Powering CH1's DAC alone must not set the status bit.
    apu.write(0xFF12, 0xF0);
    assert_eq!(apu.read(0xFF26) & 0x01, 0, "DAC on is not channel on");

    apu.write(0xFF14, 0x80); // trigger
    assert_eq!(apu.read(0xFF26) & 0x01, 1);

    // And writing the status bits does nothing.
    apu.write(0xFF26, 0x80);
    assert_eq!(apu.read(0xFF26) & 0x01, 1, "still playing");
}

#[test]
fn the_sequencer_follows_div_not_its_own_clock() {
    let mut apu = powered();
    apu.write(0xFF12, 0xF0);
    apu.write(0xFF11, 0x3F); // length 63: one tick from expiry
    apu.write(0xFF14, 0xC0); // trigger with length enabled
    assert!(apu.channel1.is_enabled());

    // Two DIV bit-4 falling edges: the first is sequencer step 0, which clocks
    // length. Feed the edges directly rather than waiting out the cycles.
    apu.tick(0x10);
    apu.tick(0x00);
    assert!(!apu.channel1.is_enabled(), "one length tick was enough");
}

#[test]
fn writing_div_can_step_the_sequencer_early() {
    // The falling edge is all that matters, so a DIV reset while bit 4 is set
    // manufactures one.
    let mut apu = powered();
    apu.write(0xFF12, 0xF0);
    apu.write(0xFF11, 0x3E); // length 62: two ticks
    apu.write(0xFF14, 0xC0);

    // Four manufactured edges: only the even steps clock length.
    for _ in 0..4 {
        apu.tick(0x10);
        apu.tick(0x00);
    }
    assert!(!apu.channel1.is_enabled());
}

#[test]
fn the_sequencer_runs_with_the_apu_powered_off() {
    let mut apu = Apu::new();
    apu.tick(0x10);
    apu.tick(0x00);
    assert_eq!(apu.sequencer_step, 1, "the step advances with the power off");

    // Powering on restarts the count, but cannot move when the next edge arrives.
    apu.write(0xFF26, 0x80);
    assert_eq!(apu.sequencer_step, 0);
}

#[test]
fn every_register_reads_as_its_mask_after_power_off() {
    let mut apu = powered();
    for address in 0xFF10u16..=0xFF25 {
        apu.write(address, 0xFF);
    }
    apu.write(0xFF26, 0x00);
    for address in 0xFF10u16..=0xFF25 {
        let index = (address - 0xFF10) as usize;
        assert_eq!(apu.read(address), READ_MASKS[index], "register {address:04X}");
    }
    assert_eq!(apu.read(0xFF26), 0x70, "off, nothing playing");
}

#[test]
fn length_loads_still_work_with_the_power_off() {
    let mut apu = Apu::new();
    apu.write(0xFF11, 0xFF); // length 63, duty bits ignored
    apu.write(0xFF26, 0x80);
    assert_eq!(apu.read(0xFF11), 0x3F, "the duty was not written");
    apu.write(0xFF12, 0xF0);
    apu.write(0xFF14, 0xC0); // trigger with length: the loaded 63 counts
    assert!(apu.channel1.is_enabled());
    apu.tick(0x10);
    apu.tick(0x00);
    assert!(!apu.channel1.is_enabled(), "the length loaded while off expired");
}

#[test]
fn wave_ram_is_locked_while_channel_3_plays() {
    let mut apu = powered();
    apu.write(0xFF30, 0x12);
    apu.write(0xFF1A, 0x80); // DAC on
    apu.write(0xFF1E, 0x80); // trigger
    assert!(apu.channel3.is_enabled());
    assert_eq!(apu.read(0xFF30), 0xFF, "open bus while playing");
    apu.write(0xFF30, 0x34);
    apu.write(0xFF1A, 0x00); // DAC off stops the channel
    assert_eq!(apu.read(0xFF30), 0x12, "the write while playing was dropped");
}

#[test]
fn dac_inputs_report_each_channel() {
    let mut apu = powered();
    assert_eq!(apu.dac_inputs(), [(0, false); 4]);
    apu.write(0xFF11, 0x80); // duty 2: the first step is high
    apu.write(0xFF12, 0xF0); // volume 15, DAC on
    apu.write(0xFF14, 0x80);
    let inputs = apu.dac_inputs();
    assert_eq!(inputs[0].1, true);
    assert_eq!(inputs[1], (0, false));
    assert_eq!(inputs[0].0, 15, "duty 2 starts high at full volume");

    apu.write(0xFF26, 0x00);
    assert_eq!(apu.dac_inputs(), [(0, false); 4], "silence with the power off");
}

#[test]
fn nr50_and_nr51_read_back_whole() {
    let mut apu = powered();
    apu.write(0xFF24, 0x5A);
    apu.write(0xFF25, 0xA5);
    assert_eq!(apu.read(0xFF24), 0x5A);
    assert_eq!(apu.read(0xFF25), 0xA5);
    assert_eq!(apu.read(0xFF27), 0xFF, "unmapped gap");
}

#[test]
fn panning_sends_each_channel_where_nr51_says() {
    let mut apu = powered();
    apu.write(0xFF25, 0x12); // channel 1 left only, channel 2 right only
    assert_eq!(
        apu.panning(),
        [(true, false), (false, true), (false, false), (false, false)]
    );
    apu.write(0xFF25, 0xFF);
    assert_eq!(apu.panning(), [(true, true); 4]);
}

#[test]
fn master_volume_is_one_to_eight() {
    let mut apu = powered();
    apu.write(0xFF24, 0x00);
    assert_eq!(apu.master_volume(), (1, 1), "volume 0 still passes sound");
    apu.write(0xFF24, 0x73);
    assert_eq!(apu.master_volume(), (8, 4));
    apu.write(0xFF24, 0xF8); // the VIN bits do not count
    assert_eq!(apu.master_volume(), (8, 1));
}
