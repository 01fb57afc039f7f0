use rayvox::clock::{round_to_hundredths, FrameClock, FrameStatus, TwoDecimals};

#[test]
fn new_clock_is_at_zero() {
    let clock = FrameClock::new();
    assert_eq!(clock, FrameClock { dt: 0, dt_sum: 0, frame_count: 0, avg_fps: 0 });
    assert_eq!(clock.avg_fps(), 0);
    assert_eq!(clock.dt(), 0);
}

#[test]
fn tick_accumulates_below_one_second() {
    let mut clock = FrameClock::new();
    clock.tick(250_000);
    assert_eq!(clock, FrameClock { dt: 250_000, dt_sum: 250_000, frame_count: 1, avg_fps: 0 });
    clock.tick(300_000);
    assert_eq!(clock, FrameClock { dt: 300_000, dt_sum: 550_000, frame_count: 2, avg_fps: 0 });
}

#[test]
fn average_is_ticks_over_time_at_the_boundary() {
    let mut clock = FrameClock::new();
    for _ in 0..4 {
        clock.tick(250_000);
        assert_eq!(clock.avg_fps(), 0);
    }
    assert_eq!(clock.dt_sum, 1_000_000);
    assert_eq!(clock.frame_count, 4);
    clock.tick(250_000);
    assert_eq!(clock.avg_fps(), 4_000);
    assert_eq!(clock.dt_sum, 0);
    assert_eq!(clock.frame_count, 0);
    assert_eq!(clock.dt(), 250_000);
}

#[test]
fn average_of_uneven_frames() {
    let mut clock = FrameClock::new();
    clock.tick(400_000);
    clock.tick(400_000);
    clock.tick(400_000);
    assert_eq!(clock, FrameClock { dt: 400_000, dt_sum: 0, frame_count: 0, avg_fps: 2_500 });
}

#[test]
fn average_rounds_down_to_a_thousandth() {
    let mut clock = FrameClock::new();
    for _ in 0..59 {
        clock.tick(16_667);
    }
    assert_eq!(clock.avg_fps(), 0);
    assert_eq!(clock.dt_sum, 983_353);
    assert_eq!(clock.frame_count, 59);
    clock.tick(16_667);
    assert_eq!(clock.avg_fps(), 59_998);
    assert_eq!(clock.dt_sum, 0);
    assert_eq!(clock.frame_count, 0);
}

#[test]
fn average_of_three_frames_a_third_of_a_second_each() {
    let mut clock = FrameClock::new();
    for _ in 0..3 {
        clock.tick(333_334);
    }
    assert_eq!(clock.avg_fps(), 2_999);
}

#[test]
fn exactly_one_second_does_not_recompute() {
    let mut clock = FrameClock::new();
    clock.tick(1_000_000);
    assert_eq!(clock, FrameClock { dt: 1_000_000, dt_sum: 1_000_000, frame_count: 1, avg_fps: 0 });
    clock.tick(1);
    assert_eq!(clock, FrameClock { dt: 1, dt_sum: 0, frame_count: 0, avg_fps: 1_999 });
}

#[test]
fn average_holds_between_boundaries() {
    let mut clock = FrameClock::new();
    clock.tick(600_000);
    clock.tick(600_000);
    assert_eq!(clock.avg_fps(), 1_666);
    clock.tick(100_000);
    assert_eq!(clock.avg_fps(), 1_666);
    clock.tick(100_000);
    assert_eq!(clock.avg_fps(), 1_666);
    assert_eq!(clock.dt_sum, 200_000);
    assert_eq!(clock.frame_count, 2);
    clock.tick(900_000);
    assert_eq!(clock.avg_fps(), 2_727);
    assert_eq!(clock.dt_sum, 0);
    assert_eq!(clock.frame_count, 0);
}

#[test]
fn one_long_frame_is_a_boundary_of_its_own() {
    let mut clock = FrameClock::new();
    clock.tick(u32::MAX);
    assert_eq!(clock.dt, u32::MAX);
    assert_eq!(clock.dt_sum, 0);
    assert_eq!(clock.frame_count, 0);
    assert_eq!(clock.avg_fps, 1_000_000_000 / 4_294_967_295);
}

#[test]
fn counters_saturate_at_their_bounds() {
    let mut clock = FrameClock { dt: 0, dt_sum: 0, frame_count: u32::MAX, avg_fps: 7 };
    clock.tick(0);
    assert_eq!(clock, FrameClock { dt: 0, dt_sum: 0, frame_count: u32::MAX, avg_fps: 7 });
    let mut clock = FrameClock { dt: 0, dt_sum: u64::MAX, frame_count: 0, avg_fps: 7 };
    clock.tick(5);
    assert_eq!(clock, FrameClock { dt: 5, dt_sum: 0, frame_count: 0, avg_fps: 0 });
}

#[test]
fn rounding_to_two_decimals() {
    assert_eq!(round_to_hundredths(0), TwoDecimals { whole: 0, hundredths: 0 });
    assert_eq!(round_to_hundredths(4_000), TwoDecimals { whole: 4, hundredths: 0 });
    assert_eq!(round_to_hundredths(16_667), TwoDecimals { whole: 16, hundredths: 67 });
    assert_eq!(round_to_hundredths(16_664), TwoDecimals { whole: 16, hundredths: 66 });
    assert_eq!(round_to_hundredths(16_665), TwoDecimals { whole: 16, hundredths: 67 });
    assert_eq!(round_to_hundredths(995), TwoDecimals { whole: 1, hundredths: 0 });
    assert_eq!(round_to_hundredths(994), TwoDecimals { whole: 0, hundredths: 99 });
    assert_eq!(
        round_to_hundredths(u64::MAX),
        TwoDecimals { whole: 18_446_744_073_709_551, hundredths: 62 }
    );
}

#[test]
fn status_shows_rate_and_milliseconds() {
    let clock = FrameClock { dt: 16_667, dt_sum: 0, frame_count: 0, avg_fps: 59_998 };
    assert_eq!(
        clock.status(),
        FrameStatus {
            fps: TwoDecimals { whole: 60, hundredths: 0 },
            dt_millis: TwoDecimals { whole: 16, hundredths: 67 },
        }
    );
}
