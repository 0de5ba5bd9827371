use vstd::prelude::*;

verus! {

/// Width of the playfield in pixels.
pub const WINDOW_WIDTH: usize = 640;

/// Height of the playfield in pixels.
pub const WINDOW_HEIGHT: usize = 360;

pub const RED: u32 = 0xff0000;

pub const GREEN: u32 = 0x00ff00;

pub const BLUE: u32 = 0x0000ff;

pub const BLACK: u32 = 0x000000;

pub const WHITE: u32 = 0xffffff;

/// Fixed-point scale of ball directions and speeds: `UNIT` stands for 1.0.
pub const UNIT: i64 = 1_000_000;

} // verus!
