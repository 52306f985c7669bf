use vstd::prelude::*;

verus! {

/// Micropixels in one pixel.
pub const UNIT: i64 = 1_000_000;

/// Half a pixel, in micropixels.
pub const HALF_UNIT: i64 = 500_000;

/// Width of the play field, in micropixels (1024 pixels).
pub const WIDTH: i64 = 1_024_000_000;

/// Height of the play field, in micropixels (768 pixels).
pub const HEIGHT: i64 = 768_000_000;

/// Speed of every moving thing: 200 pixels per second, which is 200
/// micropixels per microsecond.
pub const SPEED: i64 = 200;

/// Number of stars in the starfield.
pub const STAR_COUNT: usize = 100;

/// Time between two asteroid spawns: three seconds, in microseconds.
pub const ASTEROID_INTERVAL: u64 = 3_000_000;

/// Key code of the space bar (fires a beam).
pub const KEY_SPACE: u32 = 0x20;

/// Key code of the right arrow.
pub const KEY_RIGHT: u32 = 0x4000_004F;

/// Key code of the left arrow.
pub const KEY_LEFT: u32 = 0x4000_0050;

/// A point of the play field, in micropixels; y grows downward.
#[derive(Clone, Copy, Debug, PartialEq, Eq, Structural)]
pub struct Point {
    pub x: i64,
    pub y: i64,
}

/// Distance covered in `dt` microseconds.
pub open spec fn travel(dt: u64) -> int {
    SPEED * dt
}

/// Largest time step that the simulation accepts, about 142 years.
pub const MAX_DT: u64 = 0x0010_0000_0000_0000;

/// Travel over a time step, computed without overflow.
pub fn travel_of(dt: u64) -> (r: i64)
    requires
        dt <= MAX_DT,
    ensures
        r == travel(dt),
        0 <= r <= SPEED * MAX_DT,
{
    SPEED * (dt as i64)
}

} // verus!
