//! The world in unbounded integers, and what one frame does to it.
//!
//! All of this is ghost code: the executable world is proved to follow it,
//! frame by frame.

use vstd::prelude::*;
use crate::collection::{point_over, point_under};
use crate::entities::ShipModel;
use crate::units::{
    ASTEROID_HALF, ASTEROID_SPEED, LANE_FLOOR, PROJECTILE_HALF, PROJECTILE_SPEED, SCALE, SHIP_HALF,
    SPAWN_PERIOD,
};
use crate::util::{overlaps, square_around, Ratio, Vector2};

verus! {

/// Where a projectile at `point` is after `dt` ticks of flight.
pub open spec fn risen(point: Vector2<int>, dt: int) -> Vector2<int> {
    Vector2 { x: point.x, y: point.y - PROJECTILE_SPEED * dt }
}

/// Where an asteroid at `point` is after `dt` ticks of fall.
pub open spec fn fallen(point: Vector2<int>, dt: int) -> Vector2<int> {
    Vector2 { x: point.x, y: point.y + ASTEROID_SPEED * dt }
}

/// Whether a projectile at `shot` and an asteroid at `rock` collide.
pub open spec fn shot_hits(shot: Vector2<int>, rock: Vector2<int>) -> bool {
    overlaps(square_around(shot, PROJECTILE_HALF as int), square_around(rock, ASTEROID_HALF as int))
}

/// Whether an asteroid at `rock` and a ship at `ship` collide.
pub open spec fn rock_hits(rock: Vector2<int>, ship: Vector2<int>) -> bool {
    overlaps(square_around(rock, ASTEROID_HALF as int), square_around(ship, SHIP_HALF as int))
}

/// Whether `(i, k)` is the first pair of a projectile and an asteroid that
/// collide, when each projectile in turn is held against each asteroid in turn.
pub open spec fn is_first_hit(
    shots: Seq<Vector2<int>>,
    rocks: Seq<Vector2<int>>,
    i: int,
    k: int,
) -> bool {
    &&& 0 <= i < shots.len()
    &&& 0 <= k < rocks.len()
    &&& shot_hits(shots[i], rocks[k])
    &&& forall|a: int, b: int|
        0 <= a < shots.len() && 0 <= b < rocks.len() && (a < i || (a == i && b < k))
            ==> !#[trigger] shot_hits(shots[a], rocks[b])
}

/// The first pair of a projectile and an asteroid that collide, if any does.
pub open spec fn first_hit(shots: Seq<Vector2<int>>, rocks: Seq<Vector2<int>>) -> Option<
    (int, int),
> {
    if exists|i: int, k: int| is_first_hit(shots, rocks, i, k) {
        Some(choose|pair: (int, int)| is_first_hit(shots, rocks, pair.0, pair.1))
    } else {
        None
    }
}

/// The first colliding pair is the only pair that `is_first_hit` accepts.
pub proof fn first_hit_is(shots: Seq<Vector2<int>>, rocks: Seq<Vector2<int>>, i: int, k: int)
    requires
        is_first_hit(shots, rocks, i, k),
    ensures
        first_hit(shots, rocks) == Some((i, k)),
{
    let found = choose|pair: (int, int)| is_first_hit(shots, rocks, pair.0, pair.1);
    assert(is_first_hit(shots, rocks, (i, k).0, (i, k).1));
    assert(is_first_hit(shots, rocks, found.0, found.1));
    assert(shot_hits(shots[i], rocks[k]));
    assert(shot_hits(shots[found.0], rocks[found.1]));
    assert(found.0 == i && found.1 == k);
}

/// Where nothing collides there is no first colliding pair.
pub proof fn first_hit_none(shots: Seq<Vector2<int>>, rocks: Seq<Vector2<int>>)
    requires
        forall|a: int, b: int|
            0 <= a < shots.len() && 0 <= b < rocks.len() ==> !#[trigger] shot_hits(
                shots[a],
                rocks[b],
            ),
    ensures
        first_hit(shots, rocks) is None,
{
}

/// The pair that `first_hit` names is a first colliding pair.
pub proof fn first_hit_is_first(shots: Seq<Vector2<int>>, rocks: Seq<Vector2<int>>)
    requires
        first_hit(shots, rocks) is Some,
    ensures
        first_hit(shots, rocks) matches Some(pair) && is_first_hit(shots, rocks, pair.0, pair.1),
{
    let (i, k) = choose|i: int, k: int| is_first_hit(shots, rocks, i, k);
    assert(is_first_hit(shots, rocks, (i, k).0, (i, k).1));
}

/// Where some projectile and asteroid collide, there is a first pair that does.
pub proof fn first_hit_found(shots: Seq<Vector2<int>>, rocks: Seq<Vector2<int>>, i: int, k: int)
    requires
        0 <= i < shots.len(),
        0 <= k < rocks.len(),
        shot_hits(shots[i], rocks[k]),
    ensures
        first_hit(shots, rocks) is Some,
    decreases i, k,
{
    if exists|a: int, b: int|
        0 <= a < shots.len() && 0 <= b < rocks.len() && (a < i || (a == i && b < k))
            && #[trigger] shot_hits(shots[a], rocks[b]) {
        let (a, b) = choose|a: int, b: int|
            0 <= a < shots.len() && 0 <= b < rocks.len() && (a < i || (a == i && b < k))
                && #[trigger] shot_hits(shots[a], rocks[b]);
        first_hit_found(shots, rocks, a, b);
    } else {
        assert(is_first_hit(shots, rocks, i, k));
    }
}

/// The time between two asteroids at a given score, in ticks: the spawn
/// period over the score plus one.
pub open spec fn spawn_interval(score: int) -> Ratio<int> {
    Ratio { num: SPAWN_PERIOD as int, den: score + 1 }
}

/// The whole state of a game.
pub struct WorldModel {
    pub ship: ShipModel,
    /// The positions of the projectiles in flight, oldest first.
    pub projectiles: Seq<Vector2<int>>,
    /// The positions of the asteroids, oldest first.
    pub asteroids: Seq<Vector2<int>>,
    pub paused: bool,
    /// The size of the viewport, in pixels.
    pub viewport: Vector2<int>,
    /// The time until the next asteroid is due, in ticks.
    pub spawn_cooldown: Ratio<int>,
    pub score: int,
}

impl WorldModel {
    /// A new game: a fresh ship, nothing in the air, no viewport yet, and an
    /// asteroid due at once.
    pub open spec fn initial() -> WorldModel {
        WorldModel {
            ship: ShipModel::initial(),
            projectiles: Seq::empty(),
            asteroids: Seq::empty(),
            paused: false,
            viewport: Vector2 { x: 0, y: 0 },
            spawn_cooldown: Ratio { num: 0, den: 1 },
            score: 0,
        }
    }

    /// Half the width of the viewport, in sub-pixels.
    pub open spec fn half_width(self) -> int {
        self.viewport.x * SCALE / 2
    }

    /// The height of the viewport, in sub-pixels.
    pub open spec fn height(self) -> int {
        self.viewport.y * SCALE
    }

    /// Where a point of the simulation lies on the screen. The simulation's
    /// origin is the middle of the ship's lane, which is drawn at half the
    /// viewport's width and 50 pixels above its lower edge.
    pub open spec fn to_view(self, point: Vector2<int>) -> Vector2<int> {
        Vector2 { x: point.x + self.half_width(), y: point.y + self.height() - LANE_FLOOR }
    }

    /// The world after every entity has moved for `dt` ticks. While the ship
    /// lives it moves and its gun is given the time; a shot starts where the
    /// ship then stands, and all projectiles fly, the new one too. The
    /// asteroids fall whether the ship lives or not.
    pub open spec fn simulated(self, dt: int) -> WorldModel {
        let moved = self.ship.moved(dt);
        let shots = if moved.fires(dt) {
            self.projectiles.push(moved.position)
        } else {
            self.projectiles
        };
        WorldModel {
            ship: if self.ship.destroyed {
                self.ship
            } else {
                moved.cooled(dt)
            },
            projectiles: if self.ship.destroyed {
                self.projectiles
            } else {
                shots.map_values(|shot: Vector2<int>| risen(shot, dt))
            },
            asteroids: self.asteroids.map_values(|rock: Vector2<int>| fallen(rock, dt)),
            ..self
        }
    }

    /// Whether an asteroid is due within a step of `dt` ticks.
    pub open spec fn spawn_due(self, dt: int) -> bool {
        self.spawn_cooldown.less(dt).num < 0
    }

    /// Whether `at` lies where asteroids appear: no further to either side than
    /// half the viewport's width, and above the screen by between one and two
    /// of its heights.
    pub open spec fn spawn_area(self, at: Vector2<int>) -> bool {
        &&& -self.half_width() <= at.x <= self.half_width()
        &&& -2 * self.height() <= at.y <= -self.height()
    }

    /// The world after the spawn timer has been given `dt` ticks. Where that
    /// brings the timer below zero, an asteroid appears at `at` and the timer
    /// is set to the spawn interval of the current score.
    pub open spec fn spawned(self, dt: int, at: Vector2<int>) -> WorldModel {
        if self.spawn_due(dt) {
            WorldModel {
                asteroids: self.asteroids.push(at),
                spawn_cooldown: spawn_interval(self.score),
                ..self
            }
        } else {
            WorldModel { spawn_cooldown: self.spawn_cooldown.less(dt), ..self }
        }
    }

    /// Whether some asteroid collides with the ship.
    pub open spec fn ship_struck(self) -> bool {
        exists|k: int|
            0 <= k < self.asteroids.len() && #[trigger] rock_hits(
                self.asteroids[k],
                self.ship.position,
            )
    }

    /// The world after the ship has been held against the asteroids: where one
    /// of them strikes it, the ship is destroyed and its projectiles are gone.
    /// The asteroid stays.
    pub open spec fn wrecked(self) -> WorldModel {
        if self.ship_struck() {
            WorldModel {
                ship: ShipModel { destroyed: true, ..self.ship },
                projectiles: Seq::empty(),
                ..self
            }
        } else {
            self
        }
    }

    /// The world after the projectiles have been held against the asteroids:
    /// the first colliding pair is taken out and counts one point. No more
    /// than one pair is taken out, however many collide.
    pub open spec fn scored(self) -> WorldModel {
        match first_hit(self.projectiles, self.asteroids) {
            Some((i, k)) => WorldModel {
                projectiles: self.projectiles.remove(i),
                asteroids: self.asteroids.remove(k),
                score: self.score + 1,
                ..self
            },
            None => self,
        }
    }

    /// The world without what has left the field: the projectiles that have
    /// reached the line one viewport height above the lane, and the asteroids
    /// that have reached the lane's floor.
    pub open spec fn cleaned(self) -> WorldModel {
        WorldModel {
            projectiles: self.projectiles.filter(point_over(-self.height())),
            asteroids: self.asteroids.filter(point_under(LANE_FLOOR as int)),
            ..self
        }
    }

    /// One frame of `dt` ticks, in which an asteroid that is due appears at
    /// `at`. A paused world stays as it is.
    pub open spec fn stepped(self, dt: int, at: Vector2<int>) -> WorldModel {
        if self.paused {
            self
        } else {
            self.simulated(dt).spawned(dt, at).wrecked().scored().cleaned()
        }
    }

    /// Whether a frame of `dt` ticks stays within the machine's integers: the
    /// score can still grow by one, and the gun's cooldown can still run down
    /// by `dt`.
    pub open spec fn steppable(self, dt: int) -> bool {
        self.paused || (self.score < i32::MAX && (self.ship.destroyed || self.ship.cooldown - dt
            >= i64::MIN))
    }

    /// The world after a reset: no score, a fresh ship in the lane of the
    /// current viewport, and nothing in the air. The viewport, the pause and
    /// the spawn timer stay.
    pub open spec fn reset(self) -> WorldModel {
        WorldModel {
            ship: ShipModel { moveable_width: self.half_width(), ..ShipModel::initial() },
            projectiles: Seq::empty(),
            asteroids: Seq::empty(),
            score: 0,
            ..self
        }
    }
}

/// A paused world is left as it is by a frame of any length, whatever would have spawned.
pub proof fn paused_frame_changes_nothing(world: WorldModel, dt: int, at: Vector2<int>)
    requires
        world.paused,
    ensures
        world.stepped(dt, at) == world,
{
}

/// Where a projectile and an asteroid collide, settling the collisions takes
/// out exactly one projectile and one asteroid and counts exactly one point,
/// however many collide; where none do, nothing changes.
pub proof fn scored_settles_one_pair(world: WorldModel)
    ensures
        (exists|i: int, k: int|
            0 <= i < world.projectiles.len() && 0 <= k < world.asteroids.len()
                && #[trigger] shot_hits(world.projectiles[i], world.asteroids[k])) ==> {
            &&& world.scored().score == world.score + 1
            &&& world.scored().projectiles.len() == world.projectiles.len() - 1
            &&& world.scored().asteroids.len() == world.asteroids.len() - 1
        },
        (forall|i: int, k: int|
            0 <= i < world.projectiles.len() && 0 <= k < world.asteroids.len()
                ==> !#[trigger] shot_hits(world.projectiles[i], world.asteroids[k]))
            ==> world.scored() == world,
{
    if exists|i: int, k: int|
        0 <= i < world.projectiles.len() && 0 <= k < world.asteroids.len()
            && #[trigger] shot_hits(world.projectiles[i], world.asteroids[k]) {
        let (i, k) = choose|i: int, k: int|
            0 <= i < world.projectiles.len() && 0 <= k < world.asteroids.len()
                && #[trigger] shot_hits(world.projectiles[i], world.asteroids[k]);
        first_hit_found(world.projectiles, world.asteroids, i, k);
        first_hit_is_first(world.projectiles, world.asteroids);
    }
}

/// When an asteroid spawns at score `k`, the spawn timer is set to the spawn
/// period over `k + 1`.
pub proof fn spawn_resets_to_interval(world: WorldModel, dt: int, at: Vector2<int>)
    requires
        world.spawn_due(dt),
    ensures
        world.spawned(dt, at).spawn_cooldown.num == SPAWN_PERIOD,
        world.spawned(dt, at).spawn_cooldown.den == world.score + 1,
{
}

/// The spawn interval is above zero at every score.
pub proof fn spawn_interval_positive(score: int)
    requires
        score >= 0,
    ensures
        spawn_interval(score).positive(),
{
}

/// The higher the score, the shorter the spawn interval.
pub proof fn spawn_interval_decreasing(lower: int, higher: int)
    requires
        0 <= lower < higher,
    ensures
        spawn_interval(higher).less_than(spawn_interval(lower)),
{
    assert(SPAWN_PERIOD * (lower + 1) < SPAWN_PERIOD * (higher + 1));
}

/// After a reset the score is zero, the ship is alive at the origin, nothing is
/// in the air, and the viewport and the pause are what they were.
pub proof fn reset_restores_start(world: WorldModel)
    ensures
        world.reset().score == 0,
        !world.reset().ship.destroyed,
        world.reset().ship.position == ShipModel::initial().position,
        world.reset().projectiles.len() == 0,
        world.reset().asteroids.len() == 0,
        world.reset().viewport == world.viewport,
        world.reset().paused == world.paused,
{
}

} // verus!
