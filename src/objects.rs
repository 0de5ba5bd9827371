use vstd::prelude::*;
use crate::constants::{UNIT, WINDOW_HEIGHT, WINDOW_WIDTH};
use crate::fixed::{rem_unit, rem_unit_exec};
use crate::random::random_between;

verus! {

/// A paddle: its top-left corner, size, speed in pixels per frame and score.
pub struct Player {
    pub position_x: u32,
    pub position_y: u32,
    pub speed: u32,
    pub width: u32,
    pub height: u32,
    pub score: u32,
}

impl Player {
    pub fn set_y(&mut self, new_y: u32)
        ensures
            *final(self) == (Player { position_y: new_y, ..*old(self) }),
    {
        self.position_y = new_y;
    }

    pub fn get_y(&self) -> (r: u32)
        ensures
            r == self.position_y,
    {
        self.position_y
    }

    pub fn set_x(&mut self, new_x: u32)
        ensures
            *final(self) == (Player { position_x: new_x, ..*old(self) }),
    {
        self.position_x = new_x;
    }

    pub fn get_x(&self) -> (r: u32)
        ensures
            r == self.position_x,
    {
        self.position_x
    }

    pub fn get_speed(&self) -> (r: u32)
        ensures
            r == self.speed,
    {
        self.speed
    }

    /// Places the paddle at height `y`, keeping everything else.
    pub fn init(&mut self, y: u32)
        ensures
            *final(self) == (Player { position_y: y, ..*old(self) }),
    {
        self.set_y(y);
    }

    pub fn set_score(&mut self, score: u32)
        ensures
            *final(self) == (Player { score: score, ..*old(self) }),
    {
        self.score = score;
    }

    pub fn get_score(&self) -> (r: u32)
        ensures
            r == self.score,
    {
        self.score
    }

    pub fn set_height(&mut self, new_height: u32)
        ensures
            *final(self) == (Player { height: new_height, ..*old(self) }),
    {
        self.height = new_height;
    }

    pub fn get_height(&self) -> (r: u32)
        ensures
            r == self.height,
    {
        self.height
    }

    pub fn set_width(&mut self, new_width: u32)
        ensures
            *final(self) == (Player { width: new_width, ..*old(self) }),
    {
        self.width = new_width;
    }

    pub fn get_width(&self) -> (r: u32)
        ensures
            r == self.width,
    {
        self.width
    }
}

pub fn build_new_player(x: u32, y: u32) -> (p: Player)
    ensures
        p == (Player { position_x: x, position_y: y, speed: 10, width: 10, height: 100, score: 0 }),
{
    Player { position_x: x, position_y: y, speed: 10, height: 100, width: 10, score: 0 }
}

/// The ball: its top-left corner, its direction and speed in micro-units
/// (`UNIT` is one pixel), its size, and the trail of positions it has moved to.
pub struct Ball {
    pub position_x: u32,
    pub position_y: u32,
    pub velocity_x: i32,
    pub velocity_y: i32,
    pub speed: u64,
    pub width: u32,
    pub height: u32,
    pub history_pos_x: Vec<u32>,
    pub history_pos_y: Vec<u32>,
}

/// Trail, position, speed and size of `b` equal those of `a`.
pub open spec fn same_body(a: &Ball, b: &Ball) -> bool {
    &&& b.position_x == a.position_x
    &&& b.position_y == a.position_y
    &&& b.speed == a.speed
    &&& b.width == a.width
    &&& b.height == a.height
    &&& b.history_pos_x@ == a.history_pos_x@
    &&& b.history_pos_y@ == a.history_pos_y@
}

impl Ball {
    /// Each direction component can be negated, and the trail's two
    /// coordinate lists have one entry per point.
    pub open spec fn wf(&self) -> bool {
        &&& self.velocity_x > i32::MIN
        &&& self.velocity_y > i32::MIN
        &&& self.history_pos_x@.len() == self.history_pos_y@.len()
    }

    pub fn set_x(&mut self, new_x: u32)
        ensures
            final(self).position_x == new_x,
            final(self).position_y == old(self).position_y,
            final(self).velocity_x == old(self).velocity_x,
            final(self).velocity_y == old(self).velocity_y,
            final(self).speed == old(self).speed,
            final(self).width == old(self).width,
            final(self).height == old(self).height,
            final(self).history_pos_x@ == old(self).history_pos_x@,
            final(self).history_pos_y@ == old(self).history_pos_y@,
    {
        self.position_x = new_x;
    }

    pub fn set_y(&mut self, new_y: u32)
        ensures
            final(self).position_y == new_y,
            final(self).position_x == old(self).position_x,
            final(self).velocity_x == old(self).velocity_x,
            final(self).velocity_y == old(self).velocity_y,
            final(self).speed == old(self).speed,
            final(self).width == old(self).width,
            final(self).height == old(self).height,
            final(self).history_pos_x@ == old(self).history_pos_x@,
            final(self).history_pos_y@ == old(self).history_pos_y@,
    {
        self.position_y = new_y;
    }

    pub fn get_x(&self) -> (r: u32)
        ensures
            r == self.position_x,
    {
        self.position_x
    }

    pub fn get_y(&self) -> (r: u32)
        ensures
            r == self.position_y,
    {
        self.position_y
    }

    pub fn get_width(&self) -> (r: u32)
        ensures
            r == self.width,
    {
        self.width
    }

    pub fn get_height(&self) -> (r: u32)
        ensures
            r == self.height,
    {
        self.height
    }

    pub fn get_velocity_x(&self) -> (r: i32)
        ensures
            r == self.velocity_x,
    {
        self.velocity_x
    }

    pub fn get_velocity_y(&self) -> (r: i32)
        ensures
            r == self.velocity_y,
    {
        self.velocity_y
    }

    pub fn set_velocity_x(&mut self, new_x: i32)
        ensures
            final(self).velocity_x == new_x,
            final(self).velocity_y == old(self).velocity_y,
            same_body(old(self), final(self)),
    {
        self.velocity_x = new_x;
    }

    pub fn set_velocity_y(&mut self, new_y: i32)
        ensures
            final(self).velocity_y == new_y,
            final(self).velocity_x == old(self).velocity_x,
            same_body(old(self), final(self)),
    {
        self.velocity_y = new_y;
    }

    /// Replaces each direction component by its signed remainder by one
    /// pixel (`UNIT`): the fixed-point form of `v % 1.0`.
    pub fn normalize(&mut self)
        ensures
            final(self).velocity_x == rem_unit(old(self).velocity_x as int),
            final(self).velocity_y == rem_unit(old(self).velocity_y as int),
            same_body(old(self), final(self)),
            -UNIT < final(self).velocity_x < UNIT,
            -UNIT < final(self).velocity_y < UNIT,
    {
        let x0 = rem_unit_exec(self.velocity_x as i64);
        let y0 = rem_unit_exec(self.velocity_y as i64);
        self.velocity_x = x0 as i32;
        self.velocity_y = y0 as i32;
    }

    /// Puts the ball at the centre of the field with a fresh random
    /// direction, each component drawn from `[-UNIT, UNIT)`.
    pub fn init(&mut self)
        ensures
            final(self).position_x == WINDOW_WIDTH / 2,
            final(self).position_y == WINDOW_HEIGHT / 2,
            -UNIT <= final(self).velocity_x < UNIT,
            -UNIT <= final(self).velocity_y < UNIT,
            final(self).speed == old(self).speed,
            final(self).width == old(self).width,
            final(self).height == old(self).height,
            final(self).history_pos_x@ == old(self).history_pos_x@,
            final(self).history_pos_y@ == old(self).history_pos_y@,
    {
        self.position_x = (WINDOW_WIDTH / 2) as u32;
        self.position_y = (WINDOW_HEIGHT / 2) as u32;
        self.velocity_x = random_between(-1_000_000, 999_999);
        self.velocity_y = random_between(-1_000_000, 999_999);
    }

    pub fn clear_history(&mut self)
        ensures
            final(self).history_pos_x@.len() == 0,
            final(self).history_pos_y@.len() == 0,
            final(self).position_x == old(self).position_x,
            final(self).position_y == old(self).position_y,
            final(self).velocity_x == old(self).velocity_x,
            final(self).velocity_y == old(self).velocity_y,
            final(self).speed == old(self).speed,
            final(self).width == old(self).width,
            final(self).height == old(self).height,
    {
        self.history_pos_x = Vec::new();
        self.history_pos_y = Vec::new();
    }

    pub fn add_to_history_x(&mut self, new_x: u32)
        ensures
            final(self).history_pos_x@ == old(self).history_pos_x@.push(new_x),
            final(self).history_pos_y@ == old(self).history_pos_y@,
            final(self).position_x == old(self).position_x,
            final(self).position_y == old(self).position_y,
            final(self).velocity_x == old(self).velocity_x,
            final(self).velocity_y == old(self).velocity_y,
            final(self).speed == old(self).speed,
            final(self).width == old(self).width,
            final(self).height == old(self).height,
    {
        self.history_pos_x.push(new_x);
    }

    pub fn add_to_history_y(&mut self, new_y: u32)
        ensures
            final(self).history_pos_y@ == old(self).history_pos_y@.push(new_y),
            final(self).history_pos_x@ == old(self).history_pos_x@,
            final(self).position_x == old(self).position_x,
            final(self).position_y == old(self).position_y,
            final(self).velocity_x == old(self).velocity_x,
            final(self).velocity_y == old(self).velocity_y,
            final(self).speed == old(self).speed,
            final(self).width == old(self).width,
            final(self).height == old(self).height,
    {
        self.history_pos_y.push(new_y);
    }

    pub fn get_speed(&self) -> (r: u64)
        ensures
            r == self.speed,
    {
        self.speed
    }

    pub fn set_speed(&mut self, new_speed: u64)
        ensures
            final(self).speed == new_speed,
            final(self).position_x == old(self).position_x,
            final(self).position_y == old(self).position_y,
            final(self).velocity_x == old(self).velocity_x,
            final(self).velocity_y == old(self).velocity_y,
            final(self).width == old(self).width,
            final(self).height == old(self).height,
            final(self).history_pos_x@ == old(self).history_pos_x@,
            final(self).history_pos_y@ == old(self).history_pos_y@,
    {
        self.speed = new_speed;
    }

    pub fn get_history_x(&self) -> (r: Vec<u32>)
        ensures
            r@ == self.history_pos_x@,
    {
        self.history_pos_x.clone()
    }

    pub fn get_history_y(&self) -> (r: Vec<u32>)
        ensures
            r@ == self.history_pos_y@,
    {
        self.history_pos_y.clone()
    }
}

/// A ball at `(pos_x, pos_y)` with direction `init_vel` (micro-units per
/// axis), a speed of `fps / 30` pixels per frame, a 10 by 10 size and an
/// empty trail.
pub fn build_new_ball(pos_x: u32, pos_y: u32, init_vel: (i32, i32), fps: u32) -> (b: Ball)
    ensures
        b.position_x == pos_x,
        b.position_y == pos_y,
        b.velocity_x == init_vel.0,
        b.velocity_y == init_vel.1,
        b.speed == fps * UNIT / 30,
        b.width == 10,
        b.height == 10,
        b.history_pos_x@.len() == 0,
        b.history_pos_y@.len() == 0,
{
    Ball {
        position_x: pos_x,
        position_y: pos_y,
        velocity_x: init_vel.0,
        velocity_y: init_vel.1,
        speed: (fps as u64) * 1_000_000 / 30,
        width: 10,
        height: 10,
        history_pos_x: Vec::new(),
        history_pos_y: Vec::new(),
    }
}

} // verus!
