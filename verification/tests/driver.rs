use ultrafine_brightness::driver::{compute_target, validate_intent, CommandError, Intent};
use ultrafine_brightness::profile::lg_ultrafine;

#[test]
fn validate_intent_accepts_percentages_up_to_100() {
    assert_eq!(validate_intent(&Intent::SetAbsolute(0)), Ok(()));
    assert_eq!(validate_intent(&Intent::SetAbsolute(100)), Ok(()));
}

#[test]
fn validate_intent_rejects_out_of_range_set() {
    assert_eq!(
        validate_intent(&Intent::SetAbsolute(101)),
        Err(CommandError::InvalidPercent)
    );
    assert_eq!(
        validate_intent(&Intent::SetAbsolute(255)),
        Err(CommandError::InvalidPercent)
    );
}

#[test]
fn validate_intent_accepts_any_relative_move() {
    // Relative moves are clamped against the interval, so any count of
    // points is meaningful.
    assert_eq!(validate_intent(&Intent::Increment(255)), Ok(()));
    assert_eq!(validate_intent(&Intent::Decrement(255)), Ok(()));
}

#[test]
fn one_percent_step_of_lg_profile() {
    assert_eq!(lg_ultrafine().one_percent_step(), 540);
}

#[test]
fn set_absolute_computes_scaled_target() {
    // Device reports 27000 (50%); setting 75% targets 40500.
    let profile = lg_ultrafine();
    assert_eq!(compute_target(&profile, &Intent::SetAbsolute(75), 27000), 40500);
}

#[test]
fn increment_adds_whole_points() {
    let profile = lg_ultrafine();
    assert_eq!(compute_target(&profile, &Intent::Increment(10), 27000), 32400);
}

#[test]
fn increment_clamps_at_maximum() {
    // current = 53000; five points are 2700 native units, so the target is
    // min(54000, 53000 + 2700) = 54000.
    let profile = lg_ultrafine();
    assert_eq!(compute_target(&profile, &Intent::Increment(5), 53000), 54000);
}

#[test]
fn increment_never_overshoots_maximum() {
    // One hundred units below the top, a single point (540 units) lands
    // exactly on the top.
    let profile = lg_ultrafine();
    assert_eq!(compute_target(&profile, &Intent::Increment(1), 53900), 54000);
    assert_eq!(compute_target(&profile, &Intent::Increment(255), 53900), 54000);
}

#[test]
fn decrement_subtracts_whole_points() {
    let profile = lg_ultrafine();
    assert_eq!(compute_target(&profile, &Intent::Decrement(10), 27000), 21600);
}

#[test]
fn decrement_clamps_at_minimum() {
    // current = 50 native units; any whole point exceeds that distance, so
    // the target is the bottom of the interval, with no wraparound.
    let profile = lg_ultrafine();
    assert_eq!(compute_target(&profile, &Intent::Decrement(1), 50), 0);
    assert_eq!(compute_target(&profile, &Intent::Decrement(255), 50), 0);
}
