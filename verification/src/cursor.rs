//! When to hide the overlay: after the system has hidden the cursor for a
//! few frames in a row, or after the cursor has rested for the configured
//! idle time; and the cursor's position relative to the overlay.

use vstd::prelude::*;
use crate::config::WindowConfig;

verus! {

/// Number of consecutive frames with the system cursor hidden after which
/// the overlay hides too.
pub const OS_HIDDEN_FRAMES: u32 = 2;

#[verifier::external_type_specification]
#[verifier::external_body]
pub struct ExInstant(std::time::Instant);

/// `Instant::now`: a reading of the monotonic clock. Nothing is stated of
/// it: it depends on the time at which it is taken.
#[verifier::external_body]
fn instant_now() -> (now: std::time::Instant) {
    std::time::Instant::now()
}

/// `Instant::saturating_duration_since`: the time from `earlier` to
/// `later`, zero where `later` comes first. Nothing is stated of it: an
/// `Instant` is opaque here, so no clause can relate the duration to the two
/// readings.
#[verifier::external_body]
fn duration_between(earlier: &std::time::Instant, later: &std::time::Instant) -> (d:
    core::time::Duration) {
    later.saturating_duration_since(*earlier)
}

/// `Duration::as_millis`: the duration in whole milliseconds. Nothing is
/// stated of it: a `Duration` is opaque here, so no clause can relate the
/// count to it.
#[verifier::external_body]
fn duration_millis(d: core::time::Duration) -> (ms: u128) {
    d.as_millis()
}

/// Count of consecutive frames with the system cursor hidden, after a frame
/// that saw it visible (`os_visible`) or hidden. The count stops at
/// `u32::MAX`.
pub open spec fn next_hidden_streak(streak: u32, os_visible: bool) -> u32 {
    if os_visible {
        0
    } else if streak == u32::MAX {
        u32::MAX
    } else {
        (streak + 1) as u32
    }
}

/// Whether the overlay hides, given the count of consecutive frames with the
/// system cursor hidden, the idle threshold in milliseconds (`0`: no idle
/// hiding) and the milliseconds since the cursor last moved.
pub open spec fn hide_decision(hidden_streak: u32, hide_after_idle_ms: u64, idle_ms: u64) -> bool {
    ||| hidden_streak >= OS_HIDDEN_FRAMES
    ||| (hide_after_idle_ms > 0 && idle_ms >= hide_after_idle_ms)
}

/// Decides whether the overlay hides from the count of consecutive frames
/// with the system cursor hidden, the idle threshold in milliseconds (`0`:
/// no idle hiding) and the milliseconds since the cursor last moved.
pub fn overlay_hidden(hidden_streak: u32, hide_after_idle_ms: u64, idle_ms: u64) -> (hidden: bool)
    ensures
        hidden == hide_decision(hidden_streak, hide_after_idle_ms, idle_ms),
{
    let os_hidden = hidden_streak >= OS_HIDDEN_FRAMES;
    let idle_hidden = hide_after_idle_ms > 0 && idle_ms >= hide_after_idle_ms;
    os_hidden || idle_hidden
}

/// Milliseconds from the idle start `last_move_ms` to the reading
/// `now_ms`, zero where the reading comes first.
pub open spec fn idle_time(last_move_ms: u64, now_ms: u64) -> u64 {
    if now_ms >= last_move_ms {
        (now_ms - last_move_ms) as u64
    } else {
        0
    }
}

/// A count of whole milliseconds as a `u64` clock reading: the count itself
/// where it fits, `u64::MAX` where it does not.
pub fn clamp_millis(elapsed_ms: u128) -> (ms: u64)
    ensures
        ms == if elapsed_ms <= u64::MAX {
            elapsed_ms
        } else {
            u64::MAX as u128
        },
{
    if elapsed_ms > u64::MAX as u128 {
        u64::MAX
    } else {
        elapsed_ms as u64
    }
}

/// Follows the cursor from frame to frame to decide when the overlay hides.
/// Clock readings are milliseconds since the tracker's `origin`.
pub struct CursorTracker {
    origin: std::time::Instant,
    last_screen_pos: (i32, i32),
    last_move_ms: u64,
    os_hidden_streak: u32,
}

impl CursorTracker {
    /// Screen position of the cursor at the last frame.
    pub closed spec fn last_pos(&self) -> (i32, i32) {
        self.last_screen_pos
    }

    /// Clock reading, in milliseconds, at the latest frame whose cursor
    /// position differed from the one before, or at creation: the start of
    /// the idle time.
    pub closed spec fn last_move(&self) -> u64 {
        self.last_move_ms
    }

    /// Count of the latest consecutive frames with the system cursor hidden.
    pub closed spec fn hidden_streak(&self) -> u32 {
        self.os_hidden_streak
    }

    /// A tracker that has seen no frame, whose clock readings count from
    /// `origin` and whose idle time starts at the reading `now_ms`: its last
    /// position lies off every screen and no hidden frame has been counted.
    pub fn starting_at(origin: std::time::Instant, now_ms: u64) -> (t: Self)
        ensures
            t.last_pos() == (i32::MIN, i32::MIN),
            t.last_move() == now_ms,
            t.hidden_streak() == 0,
    {
        CursorTracker {
            origin,
            last_screen_pos: (i32::MIN, i32::MIN),
            last_move_ms: now_ms,
            os_hidden_streak: 0,
        }
    }

    /// A tracker that has seen no frame, its clock starting now: its last
    /// position lies off every screen, no hidden frame has been counted, and
    /// the idle time starts at creation.
    pub fn new() -> (t: Self)
        ensures
            t.last_pos() == (i32::MIN, i32::MIN),
            t.last_move() == 0,
            t.hidden_streak() == 0,
    {
        Self::starting_at(instant_now(), 0)
    }

    /// Records one frame seen at the clock reading `now_ms`, with the cursor
    /// at `screen_pos` and the system cursor visible or not, and says whether
    /// the overlay hides. A move of the cursor restarts the idle time at
    /// `now_ms`; the idle time runs from its start to `now_ms`.
    pub fn record_frame(
        &mut self,
        window: &WindowConfig,
        screen_pos: (i32, i32),
        os_visible: bool,
        now_ms: u64,
    ) -> (hidden: bool)
        ensures
            final(self).last_pos() == screen_pos,
            final(self).last_move() == if screen_pos != old(self).last_pos() {
                now_ms
            } else {
                old(self).last_move()
            },
            final(self).hidden_streak() == next_hidden_streak(old(self).hidden_streak(), os_visible),
            hidden == hide_decision(
                final(self).hidden_streak(),
                window.hide_after_idle_ms,
                idle_time(final(self).last_move(), now_ms),
            ),
    {
        if screen_pos.0 != self.last_screen_pos.0 || screen_pos.1 != self.last_screen_pos.1 {
            self.last_screen_pos = screen_pos;
            self.last_move_ms = now_ms;
        }
        if os_visible {
            self.os_hidden_streak = 0;
        } else {
            self.os_hidden_streak = self.os_hidden_streak.saturating_add(1);
        }
        let idle_ms = now_ms.saturating_sub(self.last_move_ms);
        overlay_hidden(self.os_hidden_streak, window.hide_after_idle_ms, idle_ms)
    }

    /// Milliseconds since the tracker's origin, by the clock now, counting up
    /// to `u64::MAX`.
    fn now_ms(&self) -> (ms: u64) {
        clamp_millis(duration_millis(duration_between(&self.origin, &instant_now())))
    }

    /// Records one frame seen now, with the cursor at `screen_pos` and the
    /// system cursor visible or not, and says whether the overlay hides. A
    /// move of the cursor restarts the idle time.
    pub fn should_hide_overlay(
        &mut self,
        window: &WindowConfig,
        screen_pos: (i32, i32),
        os_visible: bool,
    ) -> (hidden: bool)
        ensures
            final(self).last_pos() == screen_pos,
            screen_pos == old(self).last_pos() ==> final(self).last_move() == old(self).last_move(),
            final(self).hidden_streak() == next_hidden_streak(old(self).hidden_streak(), os_visible),
            exists|now_ms: u64|
                {
                    &&& final(self).last_move() == if screen_pos != old(self).last_pos() {
                        now_ms
                    } else {
                        old(self).last_move()
                    }
                    &&& hidden == #[trigger] hide_decision(
                        final(self).hidden_streak(),
                        window.hide_after_idle_ms,
                        idle_time(final(self).last_move(), now_ms),
                    )
                },
            screen_pos != old(self).last_pos() ==> hidden == (final(self).hidden_streak()
                >= OS_HIDDEN_FRAMES),
            window.hide_after_idle_ms == 0 ==> hidden == (final(self).hidden_streak()
                >= OS_HIDDEN_FRAMES),
    {
        let now_ms = self.now_ms();
        let hidden = self.record_frame(window, screen_pos, os_visible, now_ms);
        // The clock reading taken here is the witness of the `exists` clause.
        assert(hidden == hide_decision(
            self.hidden_streak(),
            window.hide_after_idle_ms,
            idle_time(self.last_move(), now_ms),
        ));
        hidden
    }
}

/// Position of a screen point relative to an overlay whose top left corner
/// lies at `origin` on the screen.
pub fn screen_to_overlay(screen_pos: (i32, i32), origin: (i32, i32)) -> (p: (i32, i32))
    requires
        i32::MIN <= screen_pos.0 - origin.0 <= i32::MAX,
        i32::MIN <= screen_pos.1 - origin.1 <= i32::MAX,
    ensures
        p.0 == screen_pos.0 - origin.0,
        p.1 == screen_pos.1 - origin.1,
{
    (screen_pos.0 - origin.0, screen_pos.1 - origin.1)
}

/// Two frames in a row with the system cursor hidden hide the overlay,
/// whatever came before.
pub proof fn law_two_hidden_frames_hide(streak: u32, hide_after_idle_ms: u64, idle_ms: u64)
    ensures
        hide_decision(
            next_hidden_streak(next_hidden_streak(streak, false), false),
            hide_after_idle_ms,
            idle_ms,
        ),
{
}

/// One frame with the system cursor hidden, right after a frame that saw it,
/// does not hide the overlay unless the cursor has been idle long enough.
pub proof fn law_single_hidden_frame_is_ignored(streak: u32, hide_after_idle_ms: u64, idle_ms: u64)
    ensures
        hide_decision(
            next_hidden_streak(next_hidden_streak(streak, true), false),
            hide_after_idle_ms,
            idle_ms,
        ) == (hide_after_idle_ms > 0 && idle_ms >= hide_after_idle_ms),
{
}

/// A frame with the system cursor visible shows the overlay unless the
/// cursor has been idle long enough; with idle hiding off, it always shows.
pub proof fn law_visible_cursor_shows_overlay(streak: u32, hide_after_idle_ms: u64, idle_ms: u64)
    ensures
        hide_decision(next_hidden_streak(streak, true), hide_after_idle_ms, idle_ms) == (
        hide_after_idle_ms > 0 && idle_ms >= hide_after_idle_ms),
        hide_after_idle_ms == 0 ==> !hide_decision(next_hidden_streak(streak, true), 0, idle_ms),
{
}

/// A cursor that has rested for at least the idle threshold hides the
/// overlay, whatever the system cursor does.
pub proof fn law_idle_cursor_hides(streak: u32, hide_after_idle_ms: u64, idle_ms: u64)
    requires
        hide_after_idle_ms > 0,
        idle_ms >= hide_after_idle_ms,
    ensures
        hide_decision(streak, hide_after_idle_ms, idle_ms),
{
}

} // verus!
