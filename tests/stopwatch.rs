use todo_timer::{format_duration, Time};

const SEC: u64 = 1_000_000_000;
const SEC_SPAN: u128 = 1_000_000_000;

#[test]
fn format_duration_pads_each_field() {
    assert_eq!(format_duration(0), "00:00:00");
    assert_eq!(format_duration(65 * SEC_SPAN), "00:01:05");
    assert_eq!(format_duration(3599 * SEC_SPAN + 999_999_999), "00:59:59");
    assert_eq!(format_duration(3661 * SEC_SPAN), "01:01:01");
}

#[test]
fn format_duration_hours_are_not_bounded() {
    assert_eq!(format_duration(100 * 3600 * SEC_SPAN), "100:00:00");
    assert_eq!(format_duration(25 * 3600 * SEC_SPAN + 59), "25:00:00");
}

#[test]
fn format_duration_largest_span() {
    let max: u128 = (u64::MAX as u128) * SEC_SPAN + 999_999_999;
    let hours = u64::MAX / 3600;
    let mins = (u64::MAX % 3600) / 60;
    let secs = u64::MAX % 60;
    assert_eq!(format_duration(max), format!("{}:{:02}:{:02}", hours, mins, secs));
}

#[test]
fn new_starts_at_zero() {
    let t = Time::new(7 * SEC);
    assert_eq!(t.export_time(), 0);
    assert_eq!(t.to_string(), "00:00:00");
}

#[test]
fn from_banks_the_given_span() {
    let t = Time::from(90 * SEC_SPAN, 3 * SEC);
    assert_eq!(t.export_time(), 90 * SEC_SPAN);
    assert_eq!(t.to_string(), "00:01:30");
}

#[test]
fn tick_refreshes_running_interval_only() {
    let mut t = Time::from(10 * SEC_SPAN, 0);
    t.tick(5 * SEC);
    assert_eq!(t.append, 10 * SEC_SPAN);
    assert_eq!(t.time_from, 5 * SEC_SPAN);
    assert_eq!(t.export_time(), 15 * SEC_SPAN);
    t.tick(5 * SEC);
    assert_eq!(t.export_time(), 15 * SEC_SPAN);
    t.tick(8 * SEC);
    assert_eq!(t.export_time(), 18 * SEC_SPAN);
}

#[test]
fn tick_before_start_counts_nothing() {
    let mut t = Time::new(10 * SEC);
    t.tick(4 * SEC);
    assert_eq!(t.export_time(), 0);
}

#[test]
fn tick_after_swap_keeps_banked_time() {
    let mut t = Time::new(0);
    t.tick(5 * SEC);
    t.swap_current(5 * SEC);
    assert_eq!(t.append, 5 * SEC_SPAN);
    assert_eq!(t.time_from, 0);
    t.tick(7 * SEC);
    assert_eq!(t.append, 5 * SEC_SPAN);
    t.tick(9 * SEC);
    assert_eq!(t.append, 5 * SEC_SPAN);
    assert_eq!(t.export_time(), 9 * SEC_SPAN);
}

#[test]
fn swap_folds_up_to_now_not_last_tick() {
    let mut t = Time::new(0);
    t.tick(2 * SEC);
    t.swap_current(6 * SEC);
    assert_eq!(t.export_time(), 6 * SEC_SPAN);
    assert_eq!(t.start, 6 * SEC);
    t.swap_current(6 * SEC);
    assert_eq!(t.export_time(), 6 * SEC_SPAN);
}

#[test]
fn new_start_keeps_banked_time() {
    let mut t = Time::from(4 * SEC_SPAN, 0);
    t.tick(3 * SEC);
    t.new_start(20 * SEC);
    assert_eq!(t.export_time(), 4 * SEC_SPAN);
    t.tick(21 * SEC);
    assert_eq!(t.export_time(), 5 * SEC_SPAN);
}

#[test]
fn copy_moves_source_total() {
    let mut source = Time::from(2 * SEC_SPAN, 0);
    let mut target = Time::from(50 * SEC_SPAN, 0);
    source.tick(1 * SEC);
    target.copy(&mut source, 3 * SEC);
    assert_eq!(source.export_time(), 5 * SEC_SPAN);
    assert_eq!(target.export_time(), 5 * SEC_SPAN);
    assert_eq!(target.start, 3 * SEC);
}

#[test]
fn fits_reports_room_left() {
    let max: u128 = (u64::MAX as u128) * SEC_SPAN + 999_999_999;
    let t = Time::from(max - 10, 0);
    assert!(t.fits(10));
    assert!(!t.fits(11));
    assert!(t.is_well_formed());
}
