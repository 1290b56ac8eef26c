//! Configuration values that the verified logic reads.

use vstd::prelude::*;

verus! {

/// Shape of a single trail point.
#[derive(Clone, Copy, Debug, PartialEq, Eq, Structural)]
pub enum TrailShape {
    Circle,
    Square,
    Star,
}

/// Settings of the overlay window.
///
/// `hide_after_idle_ms` is the idle time, in milliseconds, after which the
/// overlay is hidden while the cursor does not move; `0` turns idle hiding off.
#[derive(Clone, Copy, Debug, PartialEq, Eq, Structural)]
pub struct WindowConfig {
    pub fps: u32,
    pub click_through: bool,
    pub hide_after_idle_ms: u64,
}

/// Default of every boolean switch that is on unless configured otherwise.
pub fn default_true() -> (b: bool)
    ensures
        b,
{
    true
}

/// Default RGBA color of the trail.
pub fn default_trail_color() -> (c: [u8; 4])
    ensures
        c@ == seq![120u8, 180u8, 255u8, 200u8],
{
    [120, 180, 255, 200]
}

/// Default number of points the trail keeps.
pub fn default_max_points() -> (n: usize)
    ensures
        n == 28,
{
    28
}

/// Default shape of a trail point.
pub fn default_trail_shape() -> (s: TrailShape)
    ensures
        s == TrailShape::Circle,
{
    TrailShape::Circle
}

/// Default RGBA color of the avatar's string.
pub fn default_string_color() -> (c: [u8; 4])
    ensures
        c@ == seq![220u8, 220u8, 220u8, 220u8],
{
    [220, 220, 220, 220]
}

/// Default redraw rate of the overlay, in frames per second.
pub fn default_fps() -> (f: u32)
    ensures
        f == 60,
{
    60
}

impl Default for WindowConfig {
    fn default() -> (w: Self)
        ensures
            w.fps == 60,
            w.click_through,
            w.hide_after_idle_ms == 0,
    {
        WindowConfig { fps: default_fps(), click_through: default_true(), hide_after_idle_ms: 0 }
    }
}

} // verus!
