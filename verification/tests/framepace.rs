use korangar::graphics::framepace::{UploadPacer, INITIAL_FRAME_NANOS};

#[test]
fn average_starts_at_sixteen_milliseconds() {
    let pacer = UploadPacer::default();
    assert_eq!(pacer.average_frame_time(), INITIAL_FRAME_NANOS);
    assert_eq!(INITIAL_FRAME_NANOS, 16_000_000);
}

#[test]
fn average_over_the_last_eight_frames() {
    let mut pacer = UploadPacer::default();
    let now = std::time::Instant::now();
    for _ in 0..8 {
        pacer.record_frame(8_000_000, now);
    }
    assert_eq!(pacer.average_frame_time(), 8_000_000);
    pacer.record_frame(16_000_000, now);
    assert_eq!(pacer.average_frame_time(), 9_000_000);
}

#[test]
fn average_lies_between_the_shortest_and_longest_frame() {
    let mut pacer = UploadPacer::default();
    let now = std::time::Instant::now();
    let times = [1_000_000u128, 3_000_000, 2_000_000, 7_000_000, 5_000_000, 4_000_000, 6_000_000, 8_000_000];
    for time in times {
        pacer.record_frame(time, now);
    }
    let average = pacer.average_frame_time();
    assert_eq!(average, 4_500_000);
    assert!(average >= 1_000_000 && average <= 8_000_000);
}

#[test]
fn remaining_budget_saturates() {
    let pacer = UploadPacer::default();
    assert_eq!(pacer.remaining_budget_after(6_000_000), 10_000_000);
    assert_eq!(pacer.remaining_budget_after(20_000_000), 0);
    assert!(pacer.remaining_budget() <= INITIAL_FRAME_NANOS);
}

#[test]
fn begin_frame_records_a_measured_frame() {
    let mut pacer = UploadPacer::default();
    pacer.begin_frame();
    let elapsed = pacer.elapsed_this_frame();
    assert!(elapsed < 1_000_000_000);
    assert!(pacer.average_frame_time() < INITIAL_FRAME_NANOS);
}

#[test]
fn fewer_than_eight_frames_count_the_rest_as_sixteen_milliseconds() {
    let mut pacer = UploadPacer::default();
    let now = std::time::Instant::now();
    for _ in 0..3 {
        pacer.record_frame(8_000_000, now);
    }
    assert_eq!(pacer.average_frame_time(), (3 * 8_000_000 + 5 * 16_000_000) / 8);
    assert_eq!(pacer.checked_average_frame_time(), Some(13_000_000));
}

#[test]
fn checked_average_refuses_an_overflowing_total() {
    let mut pacer = UploadPacer::default();
    let now = std::time::Instant::now();
    pacer.record_frame(u128::MAX / 2, now);
    assert_eq!(pacer.checked_average_frame_time(), None);
}
