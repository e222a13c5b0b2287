use crate::ball::Ball;
use crate::geometry::Bounds;
use vstd::prelude::*;

verus! {

/// Milliseconds in one second: velocities are per second, time steps are in
/// milliseconds.
pub const MILLIS_PER_SECOND: i128 = 1000;

/// How far a body moving at `v` units per second travels in `dt`
/// milliseconds, rounded toward zero.
pub open spec fn travel(v: int, dt: int) -> int {
    if v * dt >= 0 {
        (v * dt) / (MILLIS_PER_SECOND as int)
    } else {
        -((-(v * dt)) / (MILLIS_PER_SECOND as int))
    }
}

/// One axis of a collision check, for a ball at `p` with velocity `v` and
/// radius `r` between walls `lo` and `hi`: the new position, the new velocity
/// and whether a wall was hit. A ball past a wall is mirrored back by twice
/// the depth it went past it, and its velocity reversed.
pub open spec fn resolve_axis(p: int, v: int, r: int, lo: int, hi: int) -> (int, int, bool) {
    if p - r < lo {
        (p + 2 * (lo - (p - r)), -v, true)
    } else if p + r > hi {
        (p + 2 * (hi - (p + r)), -v, true)
    } else {
        (p, v, false)
    }
}

/// One axis of a step of `dt` milliseconds: move, then resolve collisions.
pub open spec fn axis_step(p: int, v: int, r: int, lo: int, hi: int, dt: int) -> (int, int, bool) {
    resolve_axis(p + travel(v, dt), v, r, lo, hi)
}

pub open spec fn fits_i64(x: int) -> bool {
    i64::MIN <= x <= i64::MAX
}

/// The position and the velocity of an axis outcome are machine integers.
pub open spec fn axis_fits(o: (int, int, bool)) -> bool {
    fits_i64(o.0) && fits_i64(o.1)
}

/// With no time elapsed, a ball that does not overlap a wall stays where it
/// is, keeps its velocity and hits nothing.
pub proof fn lemma_idle_axis(p: int, v: int, r: int, lo: int, hi: int)
    requires
        lo + r <= p <= hi - r,
    ensures
        axis_step(p, v, r, lo, hi, 0) == (p, v, false),
{
    assert(v * 0 == 0) by (nonlinear_arith);
}

/// A ball that starts between the walls and travels no further in one step
/// than the free room between them ends the step between the walls.
pub proof fn lemma_axis_stays_inside(p: int, v: int, r: int, lo: int, hi: int, dt: int)
    requires
        lo + r <= p <= hi - r,
        -(hi - lo - 2 * r) <= travel(v, dt) <= hi - lo - 2 * r,
    ensures
        lo + r <= axis_step(p, v, r, lo, hi, dt).0 <= hi - r,
{
}

/// On an axis where a wall is hit the velocity is reversed; elsewhere it is
/// kept.
pub proof fn lemma_axis_reflects(p: int, v: int, r: int, lo: int, hi: int, dt: int)
    ensures
        axis_step(p, v, r, lo, hi, dt).2 ==> axis_step(p, v, r, lo, hi, dt).1 == -v,
        !axis_step(p, v, r, lo, hi, dt).2 ==> axis_step(p, v, r, lo, hi, dt).1 == v,
{
}

/// One axis of a step, computed without overflow.
pub fn step_axis(pos: i64, vel: i64, radius: i64, lo: i64, hi: i64, delta_ms: u32) -> (r: (
    i128,
    i128,
    bool,
))
    ensures
        (r.0 as int, r.1 as int, r.2) == axis_step(
            pos as int,
            vel as int,
            radius as int,
            lo as int,
            hi as int,
            delta_ms as int,
        ),
{
    let v = vel as i128;
    let d = delta_ms as i128;
    proof {
        assert(-0x8000_0000_0000_0000 * 0x1_0000_0000 <= v * d <= 0x8000_0000_0000_0000 * 0x1_0000_0000)
            by (nonlinear_arith)
            requires
                -0x8000_0000_0000_0000 <= v < 0x8000_0000_0000_0000,
                0 <= d < 0x1_0000_0000,
        ;
    }
    let prod: i128 = v * d;
    let moved: i128 = if prod >= 0 {
        prod / MILLIS_PER_SECOND
    } else {
        -((-prod) / MILLIS_PER_SECOND)
    };
    let p: i128 = pos as i128 + moved;
    let r = radius as i128;
    let lo = lo as i128;
    let hi = hi as i128;
    if p - r < lo {
        let over = lo - (p - r);
        (p + over * 2, -v, true)
    } else if p + r > hi {
        let over = hi - (p + r);
        (p + over * 2, -v, true)
    } else {
        (p, v, false)
    }
}

/// What a step reports to its caller.
#[derive(Clone, Copy, PartialEq, Eq, Structural, Debug)]
pub struct GameEvent {
    /// The ball hit a wall during the step.
    pub has_collision: bool,
}

/// The ball and the arena that holds it.
pub struct Game {
    pub ball: Ball,
    pub game_bounds: Bounds,
}

impl Game {
    pub open spec fn wf(self) -> bool {
        self.ball.wf() && self.game_bounds.wf()
    }

    /// The outcome of a step of `dt` milliseconds on the horizontal axis.
    pub open spec fn x_outcome(self, dt: int) -> (int, int, bool) {
        axis_step(
            self.ball.center.x as int,
            self.ball.velocity.x as int,
            self.ball.radius as int,
            self.game_bounds.min.x as int,
            self.game_bounds.max.x as int,
            dt,
        )
    }

    /// The outcome of a step of `dt` milliseconds on the vertical axis.
    pub open spec fn y_outcome(self, dt: int) -> (int, int, bool) {
        axis_step(
            self.ball.center.y as int,
            self.ball.velocity.y as int,
            self.ball.radius as int,
            self.game_bounds.min.y as int,
            self.game_bounds.max.y as int,
            dt,
        )
    }

    /// The positions and velocities after a step of `dt` milliseconds are
    /// machine integers.
    pub open spec fn step_fits(self, dt: int) -> bool {
        axis_fits(self.x_outcome(dt)) && axis_fits(self.y_outcome(dt))
    }

    /// The ball lies within the arena, touching a wall at most.
    pub open spec fn ball_inside(self) -> bool {
        self.game_bounds.holds_circle(self.ball.center, self.ball.radius as int)
    }

    /// In `dt` milliseconds the ball travels, on each axis, no further than
    /// the room the arena leaves around it.
    pub open spec fn travel_within_room(self, dt: int) -> bool {
        let room_x = self.game_bounds.max.x - self.game_bounds.min.x - 2 * self.ball.radius;
        let room_y = self.game_bounds.max.y - self.game_bounds.min.y - 2 * self.ball.radius;
        &&& -room_x <= travel(self.ball.velocity.x as int, dt) <= room_x
        &&& -room_y <= travel(self.ball.velocity.y as int, dt) <= room_y
    }

    pub fn new(ball: Ball, game_bounds: Bounds) -> (g: Game)
        requires
            ball.wf(),
            game_bounds.wf(),
        ensures
            g.wf(),
            g.ball == ball,
            g.game_bounds == game_bounds,
    {
        Game { ball, game_bounds }
    }

    /// Whether a step of `delta_ms` milliseconds can be taken without leaving
    /// the range of the coordinates.
    pub fn can_step(&self, delta_ms: u32) -> (r: bool)
        ensures
            r == self.step_fits(delta_ms as int),
    {
        let b = &self.ball;
        let x = step_axis(b.center.x, b.velocity.x, b.radius, self.game_bounds.min.x, self.game_bounds.max.x, delta_ms);
        let y = step_axis(b.center.y, b.velocity.y, b.radius, self.game_bounds.min.y, self.game_bounds.max.y, delta_ms);
        let lo = i64::MIN as i128;
        let hi = i64::MAX as i128;
        lo <= x.0 && x.0 <= hi && lo <= x.1 && x.1 <= hi && lo <= y.0 && y.0 <= hi && lo <= y.1
            && y.1 <= hi
    }

    /// Advances the game by `delta_ms` milliseconds: moves the ball, bounces
    /// it off the walls on each axis, and changes its color once if it hit any
    /// wall.
    pub fn step(&mut self, delta_ms: u32) -> (e: GameEvent)
        requires
            old(self).wf(),
            old(self).step_fits(delta_ms as int),
        ensures
            final(self).wf(),
            final(self).game_bounds == old(self).game_bounds,
            final(self).ball.radius == old(self).ball.radius,
            final(self).ball.fill_colors@ == old(self).ball.fill_colors@,
            final(self).ball.center.x == old(self).x_outcome(delta_ms as int).0,
            final(self).ball.center.y == old(self).y_outcome(delta_ms as int).0,
            final(self).ball.velocity.x == old(self).x_outcome(delta_ms as int).1,
            final(self).ball.velocity.y == old(self).y_outcome(delta_ms as int).1,
            e.has_collision
                == (old(self).x_outcome(delta_ms as int).2 || old(self).y_outcome(delta_ms as int).2),
            old(self).x_outcome(delta_ms as int).2 ==> final(self).ball.velocity.x
                == -old(self).ball.velocity.x,
            !old(self).x_outcome(delta_ms as int).2 ==> final(self).ball.velocity.x
                == old(self).ball.velocity.x,
            old(self).y_outcome(delta_ms as int).2 ==> final(self).ball.velocity.y
                == -old(self).ball.velocity.y,
            !old(self).y_outcome(delta_ms as int).2 ==> final(self).ball.velocity.y
                == old(self).ball.velocity.y,
            e.has_collision && old(self).ball.can_change_color()
                ==> final(self).ball.fill != old(self).ball.fill,
            e.has_collision && old(self).ball.can_change_color()
                ==> old(self).ball.other_colors().contains(final(self).ball.fill),
            !(e.has_collision && old(self).ball.can_change_color())
                ==> final(self).ball.fill == old(self).ball.fill,
            delta_ms == 0 && old(self).ball_inside() ==> {
                &&& !e.has_collision
                &&& final(self).ball.center == old(self).ball.center
                &&& final(self).ball.velocity == old(self).ball.velocity
            },
            old(self).ball_inside() && old(self).travel_within_room(delta_ms as int)
                ==> final(self).ball_inside(),
    {
        proof {
            let g = *old(self);
            let r = g.ball.radius as int;
            let b = g.game_bounds;
            lemma_axis_reflects(g.ball.center.x as int, g.ball.velocity.x as int, r, b.min.x as int, b.max.x as int, delta_ms as int);
            lemma_axis_reflects(g.ball.center.y as int, g.ball.velocity.y as int, r, b.min.y as int, b.max.y as int, delta_ms as int);
            if g.ball_inside() {
                lemma_idle_axis(g.ball.center.x as int, g.ball.velocity.x as int, r, b.min.x as int, b.max.x as int);
                lemma_idle_axis(g.ball.center.y as int, g.ball.velocity.y as int, r, b.min.y as int, b.max.y as int);
                if g.travel_within_room(delta_ms as int) {
                    lemma_axis_stays_inside(g.ball.center.x as int, g.ball.velocity.x as int, r, b.min.x as int, b.max.x as int, delta_ms as int);
                    lemma_axis_stays_inside(g.ball.center.y as int, g.ball.velocity.y as int, r, b.min.y as int, b.max.y as int, delta_ms as int);
                }
            }
        }
        let radius = self.ball.radius;
        let x = step_axis(self.ball.center.x, self.ball.velocity.x, radius, self.game_bounds.min.x, self.game_bounds.max.x, delta_ms);
        let y = step_axis(self.ball.center.y, self.ball.velocity.y, radius, self.game_bounds.min.y, self.game_bounds.max.y, delta_ms);
        self.ball.center.x = x.0 as i64;
        self.ball.velocity.x = x.1 as i64;
        self.ball.center.y = y.0 as i64;
        self.ball.velocity.y = y.1 as i64;
        let has_collision = x.2 || y.2;
        if has_collision {
            self.ball.next_color();
        }
        GameEvent { has_collision }
    }
}

} // verus!
