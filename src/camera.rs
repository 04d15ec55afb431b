//! A viewport that scrolls over the world and stays inside it.

use vstd::prelude::*;

use crate::data_types::clamp_i64;

verus! {

/// Speed of the camera, in world units per second.
pub const CAMERA_SPEED: u32 = 10;

#[derive(Clone, Copy, Debug, PartialEq, Eq, Structural)]
pub enum Direction {
    Left,
    Right,
    Up,
    Down,
}

/// A viewport over the world; all lengths in micro-units.
#[derive(Clone, Copy, Debug)]
pub struct Camera {
    pub viewport: (i64, i64),
    pub position: (i64, i64),
    pub world_size: (i64, i64),
    /// World units per second.
    pub speed: u32,
}

/// A coordinate kept inside `[0, world - view]`; when the world is
/// narrower than the view the upper bound wins.
pub open spec fn clamp_to_world(p: int, world: i64, view: i64) -> i64 {
    let low = if p < 0 { 0 } else { p };
    let limit = clamp_i64(world - view);
    if low > limit {
        limit
    } else {
        low as i64
    }
}

fn clamp_axis(p: i128, world: i64, view: i64) -> (r: i64)
    requires
        i64::MIN <= p <= i64::MAX,
    ensures
        r == clamp_to_world(p as int, world, view),
{
    let low: i128 = if p < 0 { 0 } else { p };
    let d: i128 = world as i128 - view as i128;
    let limit: i64 = if d < i64::MIN as i128 {
        i64::MIN
    } else if d > i64::MAX as i128 {
        i64::MAX
    } else {
        d as i64
    };
    if low > limit as i128 {
        limit
    } else {
        low as i64
    }
}

impl Camera {
    /// A camera at the world's origin.
    pub fn new(viewport: (i64, i64), world_size: (i64, i64)) -> (r: Self)
        ensures
            r == (Camera { viewport, position: (0, 0), world_size, speed: CAMERA_SPEED }),
    {
        Camera { viewport, position: (0, 0), world_size, speed: CAMERA_SPEED }
    }

    /// A world rectangle `[x, y, w, h]` in screen coordinates.
    pub fn transform(&self, input: [i64; 4]) -> (r: [i64; 4])
        ensures
            r@ == seq![
                clamp_i64(input@[0] - self.position.0),
                clamp_i64(input@[1] - self.position.1),
                input@[2],
                input@[3],
            ],
    {
        let x = clamp_i128(input[0] as i128 - self.position.0 as i128);
        let y = clamp_i128(input[1] as i128 - self.position.1 as i128);
        let r = [x, y, input[2], input[3]];
        assert(r@ =~= seq![
            clamp_i64(input@[0] - self.position.0),
            clamp_i64(input@[1] - self.position.1),
            input@[2],
            input@[3],
        ]);
        r
    }

    /// A screen point `[x, y]` in world coordinates.
    pub fn transform_cursor(&self, input: [i64; 2]) -> (r: [i64; 2])
        ensures
            r@ == seq![
                clamp_i64(input@[0] + self.position.0),
                clamp_i64(input@[1] + self.position.1),
            ],
    {
        let x = clamp_i128(input[0] as i128 + self.position.0 as i128);
        let y = clamp_i128(input[1] as i128 + self.position.1 as i128);
        let r = [x, y];
        assert(r@ =~= seq![
            clamp_i64(input@[0] + self.position.0),
            clamp_i64(input@[1] + self.position.1),
        ]);
        r
    }

    /// Moves the camera for `dt` microseconds in `dir`, then keeps it
    /// inside the world.
    pub fn shift(&mut self, dir: Direction, dt: u64)
        ensures
            ({
                let step = dt as int * old(self).speed as int;
                let (px, py) = old(self).position;
                let moved = match dir {
                    Direction::Left => (clamp_i64(px - step) as int, py as int),
                    Direction::Right => (clamp_i64(px + step) as int, py as int),
                    Direction::Up => (px as int, clamp_i64(py - step) as int),
                    Direction::Down => (px as int, clamp_i64(py + step) as int),
                };
                *final(self) == Camera {
                    position: (
                        clamp_to_world(moved.0, old(self).world_size.0, old(self).viewport.0),
                        clamp_to_world(moved.1, old(self).world_size.1, old(self).viewport.1),
                    ),
                    ..*old(self)
                }
            }),
    {
        proof {
            assert(0 <= dt as int * self.speed as int <= u64::MAX as int * u32::MAX as int)
                by (nonlinear_arith)
                requires
                    0 <= dt <= u64::MAX,
                    0 <= self.speed <= u32::MAX,
            ;
        }
        let step: i128 = dt as i128 * self.speed as i128;
        let (px, py) = self.position;
        let (mx, my): (i64, i64) = match dir {
            Direction::Left => (clamp_i128(px as i128 - step), py),
            Direction::Right => (clamp_i128(px as i128 + step), py),
            Direction::Up => (px, clamp_i128(py as i128 - step)),
            Direction::Down => (px, clamp_i128(py as i128 + step)),
        };
        self.position = (
            clamp_axis(mx as i128, self.world_size.0, self.viewport.0),
            clamp_axis(my as i128, self.world_size.1, self.viewport.1),
        );
    }
}

fn clamp_i128(v: i128) -> (r: i64)
    ensures
        r == clamp_i64(v as int),
{
    if v < i64::MIN as i128 {
        i64::MIN
    } else if v > i64::MAX as i128 {
        i64::MAX
    } else {
        v as i64
    }
}

} // verus!
