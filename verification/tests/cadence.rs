use swa::cadence::{schedule, Schedule, FRAME_INTERVAL_NANOS};

#[test]
fn frame_interval_is_a_sixtieth_of_a_second() {
    assert_eq!(FRAME_INTERVAL_NANOS, 16_666_667);
}

#[test]
fn running_loop_waits_one_frame_interval() {
    assert_eq!(schedule(false), Schedule::WaitUntil { nanos_after_render: 16_666_667 });
}

#[test]
fn ending_loop_schedules_exit() {
    assert_eq!(schedule(true), Schedule::Exit);
}
