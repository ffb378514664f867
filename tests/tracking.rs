use gyro_hue::{
    hue, ControlEvent, GyroSample, LoopAction, TrackedGyroInfo, ESTIMATE_SCALE, FULL_TURN,
    SAMPLE_SCALE,
};

fn sample(pitch: i32, yaw: i32, roll: i32) -> GyroSample {
    let m = SAMPLE_SCALE as i32;
    GyroSample { pitch: pitch * m, yaw: yaw * m, roll: roll * m }
}

fn degrees(d: i128) -> i128 {
    d * ESTIMATE_SCALE
}

#[test]
fn new_keeps_axes() {
    let t = TrackedGyroInfo::new(1, -2, 3);
    assert_eq!((t.yaw, t.pitch, t.roll), (1, -2, 3));
}

#[test]
fn from_sample_divides_each_axis() {
    let t = TrackedGyroInfo::from_sample(sample(300, 10, 100));
    assert_eq!(t, TrackedGyroInfo::new(degrees(1), degrees(1), degrees(1)));
    let t = TrackedGyroInfo::from_sample(GyroSample { pitch: 3, yaw: 7, roll: -5 });
    assert_eq!((t.yaw, t.pitch, t.roll), (210, 3, -15));
}

#[test]
fn clear_zeroes_and_is_idempotent() {
    let mut t = TrackedGyroInfo::new(5, -6, 7);
    t.clear();
    assert_eq!(t, TrackedGyroInfo::new(0, 0, 0));
    t.clear();
    assert_eq!(t, TrackedGyroInfo::new(0, 0, 0));
}

#[test]
fn checked_add_sums_or_refuses() {
    let a = TrackedGyroInfo::new(1, 2, 3);
    let b = TrackedGyroInfo::new(10, -20, 30);
    assert_eq!(a.checked_add(&b), Some(TrackedGyroInfo::new(11, -18, 33)));
    let big = TrackedGyroInfo::new(0, 0, i128::MAX);
    assert_eq!(big.checked_add(&a), None);
}

#[test]
fn update_accumulates_scaled_sample() {
    let mut t = TrackedGyroInfo::new(0, 0, 0);
    assert!(t.update(sample(300, 10, 100)));
    assert!(t.update(sample(300, 10, 100)));
    assert_eq!(t, TrackedGyroInfo::new(degrees(2), degrees(2), degrees(2)));
}

#[test]
fn update_that_would_overflow_changes_nothing() {
    let mut t = TrackedGyroInfo::new(i128::MAX - 10, 0, 0);
    assert!(!t.update(GyroSample { pitch: 1, yaw: 1, roll: 1 }));
    assert_eq!(t, TrackedGyroInfo::new(i128::MAX - 10, 0, 0));
}

#[test]
fn hue_of_negative_yaw_wraps_upward() {
    assert_eq!(hue(degrees(-30)), degrees(330));
    assert_eq!(TrackedGyroInfo::new(degrees(-30), 0, 0).hue(), degrees(330));
}

#[test]
fn hue_ignores_whole_turns() {
    assert_eq!(hue(degrees(10)), hue(degrees(370)));
    assert_eq!(hue(degrees(10)), hue(degrees(10) - 5 * FULL_TURN));
    assert_eq!(hue(degrees(360)), 0);
    assert_eq!(hue(0), 0);
    assert_eq!(hue(-1), FULL_TURN - 1);
}

#[test]
fn three_samples_give_hue_thirty_six() {
    let mut t = TrackedGyroInfo::new(0, 0, 0);
    let events = vec![
        ControlEvent::Gyro(sample(300, 10, 100)),
        ControlEvent::Gyro(sample(0, 0, 0)),
        ControlEvent::Gyro(sample(-300, 350, -100)),
    ];
    assert_eq!(t.handle_all(&events), LoopAction::Continue);
    assert_eq!(t, TrackedGyroInfo::new(degrees(36), 0, 0));
    assert_eq!(t.hue(), degrees(36));
}

#[test]
fn other_events_do_not_disturb_the_sum() {
    let mut plain = TrackedGyroInfo::new(0, 0, 0);
    plain.handle(&ControlEvent::Gyro(sample(1, 2, 3)));
    plain.handle(&ControlEvent::Gyro(sample(4, 5, 6)));
    let mut mixed = TrackedGyroInfo::new(0, 0, 0);
    assert_eq!(mixed.handle(&ControlEvent::Quit), LoopAction::Stop);
    mixed.handle(&ControlEvent::Gyro(sample(1, 2, 3)));
    assert_eq!(mixed.handle(&ControlEvent::CancelKey), LoopAction::Stop);
    mixed.handle(&ControlEvent::Gyro(sample(4, 5, 6)));
    assert_eq!(mixed, plain);
    let m = SAMPLE_SCALE;
    assert_eq!(plain, TrackedGyroInfo::new(7 * m * 30, 5 * m, 9 * m * 3));
}

#[test]
fn reset_between_samples_keeps_only_later_ones() {
    let mut t = TrackedGyroInfo::new(degrees(100), 4, 4);
    let events = vec![
        ControlEvent::Gyro(sample(300, 10, 100)),
        ControlEvent::ResetButton,
        ControlEvent::Gyro(sample(0, 20, 0)),
    ];
    assert_eq!(t.handle_all(&events), LoopAction::Continue);
    assert_eq!(t, TrackedGyroInfo::new(degrees(2), 0, 0));
    assert_eq!(t.hue(), degrees(2));
}

#[test]
fn handle_reports_stop_only_for_quit_and_cancel() {
    let mut t = TrackedGyroInfo::new(0, 0, 0);
    assert_eq!(t.handle(&ControlEvent::Quit), LoopAction::Stop);
    assert_eq!(t.handle(&ControlEvent::CancelKey), LoopAction::Stop);
    assert_eq!(t.handle(&ControlEvent::ResetButton), LoopAction::Continue);
    assert_eq!(t.handle(&ControlEvent::Gyro(sample(0, 0, 0))), LoopAction::Continue);
}

#[test]
fn handle_all_stops_at_first_quit() {
    let mut t = TrackedGyroInfo::new(0, 0, 0);
    let events = vec![
        ControlEvent::Gyro(sample(0, 10, 0)),
        ControlEvent::CancelKey,
        ControlEvent::Gyro(sample(0, 10, 0)),
    ];
    assert_eq!(t.handle_all(&events), LoopAction::Stop);
    assert_eq!(t, TrackedGyroInfo::new(degrees(1), 0, 0));
}

#[test]
fn handle_all_on_no_events_changes_nothing() {
    let mut t = TrackedGyroInfo::new(3, 4, 5);
    assert_eq!(t.handle_all(&Vec::new()), LoopAction::Continue);
    assert_eq!(t, TrackedGyroInfo::new(3, 4, 5));
}
