//! The bounded queue samples wait in for the host.

use game_koi::apu::queue::{SampleQueue, MAX_QUEUED_SAMPLES};

#[test]
fn samples_come_out_in_the_order_they_went_in() {
    let mut queue = SampleQueue::new();
    for sample in 0..5u32 {
        queue.push(sample);
    }
    assert_eq!(queue.len(), 5);
    let mut out = vec![100];
    queue.drain_into(&mut out);
    assert_eq!(out, vec![100, 0, 1, 2, 3, 4]);
    assert_eq!(queue.len(), 0);
}

#[test]
fn a_full_queue_drops_the_oldest() {
    let mut queue = SampleQueue::new();
    let total = MAX_QUEUED_SAMPLES + 3;
    for sample in 0..total {
        queue.push(sample);
    }
    assert_eq!(queue.len(), MAX_QUEUED_SAMPLES);
    let mut out = Vec::new();
    queue.drain_into(&mut out);
    assert_eq!(out.len(), MAX_QUEUED_SAMPLES);
    assert_eq!(out[0], 3, "the three oldest gave way");
    assert_eq!(*out.last().unwrap(), total - 1, "the newest is kept");
}

#[test]
fn the_queue_holds_a_fifth_of_a_second() {
    assert_eq!(MAX_QUEUED_SAMPLES, 8192);
}
