use std::time::{Duration, Instant};
use cursor_trail::config::WindowConfig;
use cursor_trail::cursor::{overlay_hidden, screen_to_overlay, CursorTracker, OS_HIDDEN_FRAMES};

fn window(hide_after_idle_ms: u64) -> WindowConfig {
    WindowConfig { fps: 60, click_through: true, hide_after_idle_ms }
}

#[test]
fn visible_cursor_keeps_overlay_shown() {
    let mut t = CursorTracker::new();
    let w = window(0);
    for i in 0..5 {
        assert!(!t.should_hide_overlay(&w, (i, i), true));
    }
    assert!(!t.should_hide_overlay(&w, (4, 4), true));
}

#[test]
fn two_hidden_frames_hide_overlay() {
    let mut t = CursorTracker::new();
    let w = window(0);
    assert!(!t.should_hide_overlay(&w, (10, 10), false));
    assert!(t.should_hide_overlay(&w, (10, 10), false));
    assert!(t.should_hide_overlay(&w, (11, 10), false));
}

#[test]
fn single_hidden_frame_is_ignored() {
    let mut t = CursorTracker::new();
    let w = window(0);
    assert!(!t.should_hide_overlay(&w, (0, 0), true));
    assert!(!t.should_hide_overlay(&w, (0, 0), false));
    assert!(!t.should_hide_overlay(&w, (0, 0), true));
    assert!(!t.should_hide_overlay(&w, (0, 0), false));
}

#[test]
fn visible_frame_resets_hidden_count() {
    let mut t = CursorTracker::new();
    let w = window(0);
    assert!(!t.should_hide_overlay(&w, (0, 0), false));
    assert!(t.should_hide_overlay(&w, (0, 0), false));
    assert!(!t.should_hide_overlay(&w, (0, 0), true));
    assert!(!t.should_hide_overlay(&w, (0, 0), false));
}

#[test]
fn idle_cursor_hides_after_threshold() {
    let mut t = CursorTracker::new();
    let w = window(30);
    assert!(!t.should_hide_overlay(&w, (5, 5), true));
    let start = Instant::now();
    while start.elapsed() < Duration::from_millis(80) {}
    assert!(t.should_hide_overlay(&w, (5, 5), true));
    // A move restarts the idle time.
    assert!(!t.should_hide_overlay(&w, (6, 5), true));
}

#[test]
fn hide_decision_values() {
    assert_eq!(OS_HIDDEN_FRAMES, 2);
    assert!(!overlay_hidden(0, 0, 1_000_000));
    assert!(!overlay_hidden(1, 0, 1_000_000));
    assert!(overlay_hidden(2, 0, 0));
    assert!(overlay_hidden(u32::MAX, 0, 0));
    assert!(!overlay_hidden(0, 500, 499));
    assert!(overlay_hidden(0, 500, 500));
    assert!(overlay_hidden(1, 500, u64::MAX));
}

#[test]
fn screen_to_overlay_offsets() {
    assert_eq!(screen_to_overlay((100, 50), (0, 0)), (100, 50));
    assert_eq!(screen_to_overlay((100, 50), (100, 50)), (0, 0));
    assert_eq!(screen_to_overlay((-10, 5), (1920, -1080)), (-1930, 1085));
}

#[test]
fn idle_time_restarts_when_the_cursor_moves() {
    let w = window(30);
    let mut t = CursorTracker::starting_at(Instant::now(), 0);
    // The first frame moves the cursor off the initial position at 10.
    assert!(!t.record_frame(&w, (5, 5), true, 10));
    assert!(!t.record_frame(&w, (5, 5), true, 39));
    assert!(t.record_frame(&w, (5, 5), true, 40));
    assert!(!t.record_frame(&w, (6, 5), true, 50));
    assert!(!t.record_frame(&w, (6, 5), true, 79));
    assert!(t.record_frame(&w, (6, 5), true, 80));
}

#[test]
fn idle_time_starts_at_the_given_reading() {
    let w = window(100);
    let mut t = CursorTracker::starting_at(Instant::now(), 1_000);
    // The first frame moves the cursor off the initial position.
    assert!(!t.record_frame(&w, (0, 0), true, 1_050));
    assert!(!t.record_frame(&w, (0, 0), true, 1_149));
    assert!(t.record_frame(&w, (0, 0), true, 1_150));
    // A reading before the idle start counts as no idle time.
    assert!(!t.record_frame(&w, (0, 0), true, 10));
}

#[test]
fn idle_hiding_off_ignores_the_clock() {
    let mut t = CursorTracker::starting_at(Instant::now(), 0);
    let w = window(0);
    assert!(!t.record_frame(&w, (1, 1), true, 3_600_000));
    assert!(!t.record_frame(&w, (1, 1), false, 7_200_000));
    assert!(t.record_frame(&w, (1, 1), false, 7_200_001));
}
