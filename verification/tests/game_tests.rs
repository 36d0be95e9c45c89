use primes::game::{
    game_time_step, mode_is_run, mode_is_screenshot, screenshot_image_ready, speed_target,
    zoom_target_step,
};
use primes::Args;

#[test]
fn speed_target_follows_held_modifiers() {
    assert_eq!(speed_target(false, false), 1);
    assert_eq!(speed_target(false, true), 4);
    assert_eq!(speed_target(true, false), 16);
    // Shift wins when both are held.
    assert_eq!(speed_target(true, true), 16);
}

#[test]
fn game_time_advances_by_the_scaled_delta() {
    assert_eq!(game_time_step(1000, false, 16), 1016);
    assert_eq!(game_time_step(0, false, 0), 0);
}

#[test]
fn game_time_reset_key_zeroes_the_clock() {
    assert_eq!(game_time_step(123_456, true, 16), 0);
}

#[test]
fn game_time_saturates_instead_of_aborting() {
    assert_eq!(game_time_step(u64::MAX, false, 1), u64::MAX);
    assert_eq!(game_time_step(u64::MAX - 5, false, 10), u64::MAX);
}

#[test]
fn zoom_target_steps_within_the_palette() {
    assert_eq!(zoom_target_step(0, false, true, false), 1);
    assert_eq!(zoom_target_step(0, false, false, true), -1);
    assert_eq!(zoom_target_step(3, false, false, false), 3);
}

#[test]
fn zoom_target_clamps_at_the_palette_edges() {
    assert_eq!(zoom_target_step(10, false, true, false), 10);
    assert_eq!(zoom_target_step(-6, false, false, true), -6);
}

#[test]
fn zoom_space_returns_to_the_default_level() {
    assert_eq!(zoom_target_step(7, true, false, false), 0);
    assert_eq!(zoom_target_step(-3, true, true, true), 0);
}

#[test]
fn screenshot_readiness_is_four_bytes_per_pixel() {
    assert!(screenshot_image_ready(4 * 1920 * 1080, 1920, 1080));
    assert!(!screenshot_image_ready(4 * 1920 * 1080 - 1, 1920, 1080));
    assert!(!screenshot_image_ready(0, 1920, 1080));
    assert!(screenshot_image_ready(0, 0, 1080));
}

#[test]
fn modes_match_the_parsed_arguments() {
    let run = Args::Run;
    let shot = Args::Screenshot { width: 1920, height: 1080, game_time_millis: 0, game_zoom_exp: 0 };
    assert!(mode_is_run(&run));
    assert!(!mode_is_run(&shot));
    assert!(!mode_is_screenshot(&run));
    assert!(mode_is_screenshot(&shot));
}
