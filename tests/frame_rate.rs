use mandelbrot::frame_rate::FpsCounter;

#[test]
fn new_counter_is_zero() {
    let c = FpsCounter::new();
    assert_eq!(c.fps, 0);
    assert_eq!(c.count, 0);
}

#[test]
fn frames_are_counted_within_a_second() {
    let mut c = FpsCounter::new();
    assert!(!c.frame(false));
    assert!(!c.frame(false));
    assert_eq!(c.count, 2);
    assert_eq!(c.fps, 0);
}

#[test]
fn second_passing_publishes_count_including_current_frame() {
    let mut c = FpsCounter::new();
    for _ in 0..59 {
        c.frame(false);
    }
    assert!(c.frame(true));
    assert_eq!(c.fps, 60);
    assert_eq!(c.count, 0);
}

#[test]
fn rate_is_kept_until_next_second() {
    let mut c = FpsCounter::new();
    c.frame(false);
    c.frame(true);
    assert_eq!(c.fps, 2);
    c.frame(false);
    c.frame(false);
    c.frame(false);
    assert_eq!(c.fps, 2);
    assert_eq!(c.count, 3);
    assert!(c.frame(true));
    assert_eq!(c.fps, 4);
    assert_eq!(c.count, 0);
}

#[test]
fn largest_count_before_overflow() {
    let mut c = FpsCounter { fps: 7, count: u64::MAX - 1 };
    assert!(c.frame(true));
    assert_eq!(c.fps, u64::MAX);
    assert_eq!(c.count, 0);
}
