//! What the performance panel shows.

use game_koi::stats::join_driver;
use game_koi::stats::{AdapterInfo, Backend, DeviceType, FrameStats, FrameTiming, GpuInfo, GpuKind};

/// Milliseconds, in the nanoseconds the counters take.
fn ms(millis: u64) -> u64 {
    millis * 1_000_000
}

/// Builds a completed frame from its three parts.
fn frame(stats: &mut FrameStats, emulate_ms: u64, render_ms: u64, sleep_ms: u64, total_ms: u64) {
    stats.emulated(ms(emulate_ms));
    stats.rendered(ms(render_ms));
    stats.slept(ms(sleep_ms));
    stats.frame_completed(ms(total_ms));
}

/// An adapter's self-description, with the fields this module reads filled in.
fn adapter_info(name: &str, device_type: DeviceType) -> AdapterInfo {
    AdapterInfo {
        name: name.to_string(),
        device_type,
        driver: "radv".to_string(),
        driver_info: "Mesa 25.2.1".to_string(),
        backend: Backend::Vulkan,
    }
}

#[test]
    fn driver_name_and_version_are_joined_without_stray_separators() {
        // Which of the two an adapter fills in varies by driver, so all four
        // combinations have to read properly.
        assert_eq!(join_driver("radv", "Mesa 25.2.1"), "radv Mesa 25.2.1");
        assert_eq!(join_driver("NVIDIA", ""), "NVIDIA");
        assert_eq!(join_driver("", "610.57.04"), "610.57.04");
        assert_eq!(join_driver("", ""), "unknown");
    }

#[test]
fn blocked_time_is_what_is_left_over() {
    let timing = FrameTiming { emulate: 2, render: 1, sleep: 3, total: 16 };
    assert_eq!(timing.blocked(), 10);
    let timing = FrameTiming { emulate: 10, render: 10, sleep: 5, total: 15 };
    assert_eq!(timing.blocked(), 0, "never underflows");
}

#[test]
fn gpu_kinds_say_whether_hardware_draws() {
    assert_eq!(GpuKind::Software.accelerated(), Some(false));
    assert_eq!(GpuKind::Discrete.accelerated(), Some(true));
    assert_eq!(GpuKind::Unknown.accelerated(), None);
    assert_eq!(GpuKind::Software.label(), "software (CPU)");
}

#[test]
fn late_frames_are_counted_separately_from_total() {
    let mut stats = FrameStats::new();
    frame(&mut stats, 2, 1, 1, 4);
    frame(&mut stats, 2, 1, 0, 30);
    stats.frame_was_late();

    assert_eq!(stats.total_frames(), 2);
    assert_eq!(stats.late_frames(), 1, "only the overrun should count as late");
}

#[test]
fn a_healthy_frame_is_not_blocked_at_all() {
    // 2ms of work, the rest slept on purpose.
    let mut stats = FrameStats::new();
    frame(&mut stats, 2, 1, 13, 16);

    assert_eq!(stats.timing().blocked(), 0);
}

#[test]
fn blocking_shows_up_when_the_frame_overruns_its_sleep() {
    let mut stats = FrameStats::new();
    frame(&mut stats, 2, 1, 3, 16);

    assert_eq!(stats.timing().blocked(), ms(10));
}

#[test]
fn blocked_never_underflows_when_the_parts_exceed_the_total() {
    let mut stats = FrameStats::new();
    frame(&mut stats, 10, 10, 5, 15);

    assert_eq!(stats.timing().blocked(), 0);
}

#[test]
fn render_time_accumulates_across_multiple_redraws() {
    let mut stats = FrameStats::new();
    stats.emulated(ms(2));
    stats.rendered(ms(1));
    stats.rendered(ms(3));
    stats.slept(ms(10));
    stats.frame_completed(ms(16));

    assert_eq!(stats.timing().render, ms(4));
}

#[test]
fn phases_reset_between_frames() {
    let mut stats = FrameStats::new();
    frame(&mut stats, 5, 5, 6, 16);
    frame(&mut stats, 1, 1, 14, 16);

    assert_eq!(stats.timing().emulate, ms(1));
    assert_eq!(stats.timing().render, ms(1));
}

#[test]
fn the_gpu_is_unknown_until_the_surface_exists() {
    assert!(FrameStats::new().gpu().is_none());
}

#[test]
fn the_rate_window_stays_open_until_enough_time_has_passed() {
    // Reporting a rate computed from one frame would be noise, so nothing is
    // handed back until the window has run for half a second.
    let mut stats = FrameStats::new();
    frame(&mut stats, 2, 1, 13, 16);
    assert_eq!(stats.sample_window(ms(16)), None);
    for _ in 0..29 {
        frame(&mut stats, 2, 1, 13, 16);
    }
    assert_eq!(stats.sample_window(ms(500)), Some(30));
    assert_eq!(stats.sample_window(ms(500)), Some(0), "the window restarted");
    assert_eq!(stats.total_frames(), 30, "the total is not windowed");
}

#[test]
fn a_cpu_adapter_is_reported_as_not_accelerated() {
    let info = GpuInfo::from_adapter_info(&adapter_info("llvmpipe", DeviceType::Cpu));
    assert_eq!(info.kind, GpuKind::Software);
    assert_eq!(info.kind.accelerated(), Some(false));
}

#[test]
fn real_hardware_is_reported_as_accelerated() {
    for device_type in [DeviceType::DiscreteGpu, DeviceType::IntegratedGpu, DeviceType::VirtualGpu] {
        let info = GpuInfo::from_adapter_info(&adapter_info("gpu", device_type));
        assert_eq!(info.kind.accelerated(), Some(true), "{device_type:?} has hardware behind it");
    }
}

#[test]
fn an_unspecific_adapter_is_neither_yes_nor_no() {
    let info = GpuInfo::from_adapter_info(&adapter_info("?", DeviceType::Other));
    assert_eq!(info.kind, GpuKind::Unknown);
    assert_eq!(info.kind.accelerated(), None);
}

#[test]
fn the_backend_is_named_for_a_person_to_read() {
    let info = GpuInfo::from_adapter_info(&adapter_info("gpu", DeviceType::DiscreteGpu));
    assert_eq!(info.backend, "Vulkan");
}

#[test]
fn an_adapter_keeps_its_name_and_driver() {
    let info = GpuInfo::from_adapter_info(&adapter_info("  llvmpipe  ", DeviceType::Cpu));
    assert_eq!(info.device, "  llvmpipe  ", "the name is kept as reported");
    assert_eq!(info.driver, "radv Mesa 25.2.1");
    let mut stats = FrameStats::new();
    stats.set_gpu(info);
    assert_eq!(stats.gpu().map(|g| g.backend), Some("Vulkan"));
}

#[test]
fn unicode_white_space_is_trimmed_from_driver_text() {
    assert_eq!(join_driver("\u{3000}radv\u{a0}", "\tMesa 25.2.1\n"), "radv Mesa 25.2.1");
    assert_eq!(join_driver("\u{2009}", " "), "unknown");
}
