//! The game itself: it owns the ship, the projectiles and the asteroids, and
//! moves them frame by frame.

use vstd::prelude::*;
use crate::collection::{
    places, places_of_filtered_over, places_of_filtered_under, retain_y_over, retain_y_under,
    y_over, y_under,
};
use crate::entities::{
    is_asteroid_shape, is_projectile_shape, is_ship_shape, Asteroid, Entity, Projectile,
    Renderable, Ship, ShipModel,
};
use crate::model::{
    fallen, first_hit, first_hit_is, first_hit_none, is_first_hit, risen, rock_hits, shot_hits,
    spawn_interval, WorldModel,
};
use crate::units::{
    ASTEROID_SPEED, LANE_FLOOR, MAX_HALF_WIDTH, MAX_HEIGHT, MAX_STEP, PROJECTILE_SPEED, SCALE,
    SHIP_SPEED, SPAWN_PERIOD,
};
use crate::util::{
    all_have_vertices, any_intersecting, collides, first_intersecting, is_first_collision,
    no_collision, Ratio, Vector2,
};

verus! {

/// What is to be drawn at a place on the screen.
pub enum Sprite {
    Ship,
    Projectile,
    Asteroid,
}

/// Whether `shape` is how a sprite of kind `sprite` is drawn.
pub open spec fn depicts(shape: Renderable, sprite: Sprite) -> bool {
    match sprite {
        Sprite::Ship => is_ship_shape(shape),
        Sprite::Projectile => is_projectile_shape(shape),
        Sprite::Asteroid => is_asteroid_shape(shape),
    }
}

/// What a world shows, back to front: the ship unless it is destroyed, then
/// the projectiles, then the asteroids, each at its place on the screen.
pub open spec fn scene(world: WorldModel) -> Seq<(Sprite, Vector2<int>)> {
    let ship = if world.ship.destroyed {
        Seq::<(Sprite, Vector2<int>)>::empty()
    } else {
        seq![(Sprite::Ship, world.to_view(world.ship.position))]
    };
    ship + world.projectiles.map_values(
        |shot: Vector2<int>| (Sprite::Projectile, world.to_view(shot)),
    ) + world.asteroids.map_values(|rock: Vector2<int>| (Sprite::Asteroid, world.to_view(rock)))
}

/// A game in progress.
pub struct World {
    asteroids: Vec<Asteroid>,
    projectiles: Vec<Projectile>,
    ship: Ship,
    paused: bool,
    viewport: Vector2<u32>,
    spawn_cooldown: Ratio<i64>,
    score: i32,
}

impl View for World {
    type V = WorldModel;

    closed spec fn view(&self) -> WorldModel {
        WorldModel {
            ship: self.ship@,
            projectiles: places(self.projectiles@),
            asteroids: places(self.asteroids@),
            paused: self.paused,
            viewport: Vector2 { x: self.viewport.x as int, y: self.viewport.y as int },
            spawn_cooldown: self.spawn_cooldown@,
            score: self.score as int,
        }
    }
}

impl World {
    /// The limits that a world keeps from frame to frame.
    pub closed spec fn wf(&self) -> bool {
        self.within(0)
    }

    pub fn new() -> (world: World)
        ensures
            world.wf(),
            world@ == WorldModel::initial(),
    {
        let world = World {
            asteroids: Vec::new(),
            projectiles: Vec::new(),
            ship: Ship::new(),
            paused: false,
            viewport: Vector2::new(0, 0),
            spawn_cooldown: Ratio::new(0, 1),
            score: 0,
        };
        assert(world@.projectiles =~= Seq::empty());
        assert(world@.asteroids =~= Seq::empty());
        world
    }

    /// Works out one frame of `dt` ticks. Nothing happens while the game is
    /// paused. Otherwise the entities move, an asteroid that is due appears
    /// at a place drawn at random from the spawn area, collisions are settled,
    /// and what has left the field is taken out.
    pub fn run(&mut self, dt: u32)
        requires
            old(self).wf(),
            old(self)@.steppable(dt as int),
        ensures
            final(self).wf(),
            old(self)@.paused ==> final(self)@ == old(self)@,
            exists|at: Vector2<int>|
                old(self)@.spawn_area(at) && final(self)@ == #[trigger] old(self)@.stepped(
                    dt as int,
                    at,
                ),
    {
        if self.paused {
            let ghost at = Vector2 { x: 0int, y: -self@.height() };
            assert(self@.spawn_area(at) && self@ == self@.stepped(dt as int, at));
            return ;
        }
        self.simulate(dt);
        let ghost simulated = self@;
        self.spawn_asteroids(dt);
        let ghost at = choose|at: Vector2<int>|
            simulated.spawn_area(at) && self@ == #[trigger] simulated.spawned(dt as int, at);
        self.resolve_collisions();
        self.cleanup();
        assert(old(self)@.spawn_area(at) && self@ == old(self)@.stepped(dt as int, at));
    }

    /// Works out one frame of `dt` ticks as `run` does, but lets an asteroid
    /// that is due appear at `at`.
    pub fn run_with(&mut self, dt: u32, at: Vector2<i64>)
        requires
            old(self).wf(),
            old(self)@.steppable(dt as int),
            !old(self)@.paused && old(self)@.spawn_due(dt as int) ==> old(self)@.spawn_area(at@),
        ensures
            final(self).wf(),
            final(self)@ == old(self)@.stepped(dt as int, at@),
    {
        if self.paused {
            return ;
        }
        self.simulate(dt);
        self.spawn_asteroid_at(dt, at);
        self.resolve_collisions();
        self.cleanup();
    }

    /// Pauses the game when the window loses the focus, and resumes it when
    /// the focus is back.
    pub fn pause(&mut self, focus: bool)
        ensures
            final(self)@ == (WorldModel { paused: !focus, ..old(self)@ }),
            old(self).wf() ==> final(self).wf(),
    {
        self.paused = !focus;
    }

    /// Takes over the size of the window, in pixels, and fits the ship's lane to it.
    pub fn update_viewport(&mut self, w: u32, h: u32)
        ensures
            final(self)@ == (WorldModel {
                viewport: Vector2 { x: w as int, y: h as int },
                ship: ShipModel { moveable_width: w * SCALE / 2, ..old(self)@.ship },
                ..old(self)@
            }),
            old(self).wf() ==> final(self).wf(),
    {
        self.viewport.x = w;
        self.viewport.y = h;
        self.ship.set_moveable_width(w);
    }

    pub fn score(&self) -> (score: i32)
        ensures
            score == self@.score,
    {
        self.score
    }

    /// Starts over: see `WorldModel::reset`.
    pub fn reset(&mut self)
        ensures
            final(self)@ == old(self)@.reset(),
            old(self).wf() ==> final(self).wf(),
    {
        self.score = 0;
        self.ship = Ship::new();
        self.ship.set_moveable_width(self.viewport.x);
        self.projectiles.clear();
        self.asteroids.clear();
        assert(self@.projectiles =~= Seq::empty());
        assert(self@.asteroids =~= Seq::empty());
    }

    /// Hands out the ship, for the controls to act on.
    pub fn get_ship(&mut self) -> (ship: &mut Ship)
        ensures
            ship@ == old(self)@.ship,
            old(self).wf() ==> ship.wf(),
            final(self)@ == (WorldModel { ship: final(ship)@, ..old(self)@ }),
            old(self).wf() && final(ship).wf() ==> final(self).wf(),
    {
        &mut self.ship
    }

    /// Tells whether the next frame, of `dt` ticks, stays within the machine's integers.
    pub fn can_run(&self, dt: u32) -> (ok: bool)
        ensures
            ok == self@.steppable(dt as int),
    {
        self.paused || (self.score < i32::MAX && (self.ship.is_destroyed() || self.ship.cooldown()
            >= i64::MIN + dt as i64))
    }

    /// Maps a point of the simulation to its place on the screen.
    pub fn to_view(&self, position: Vector2<i64>) -> (place: Vector2<i64>)
        requires
            i64::MIN <= self@.to_view(position@).x <= i64::MAX,
            i64::MIN <= self@.to_view(position@).y <= i64::MAX,
        ensures
            place@ == self@.to_view(position@),
    {
        let view_x = self.viewport.x as i64 * SCALE / 2;
        let view_y = self.viewport.y as i64 * SCALE - LANE_FLOOR;

        Vector2::new(position.x + view_x, position.y + view_y)
    }

    /// What is to be drawn, back to front: each shape with its place on the screen.
    pub fn renderables(&self) -> (result: Vec<(&Renderable, Vector2<i64>)>)
        requires
            self.wf(),
        ensures
            result@.len() == scene(self@).len(),
            forall|i: int|
                0 <= i < result@.len() ==> depicts(
                    *(#[trigger] result@[i]).0,
                    scene(self@)[i].0,
                ) && result@[i].1@ == scene(self@)[i].1,
    {
        let mut result: Vec<(&Renderable, Vector2<i64>)> = Vec::new();
        let ghost target = scene(self@);
        let ghost first: int = if self@.ship.destroyed { 0 } else { 1 };
        if !self.ship.is_destroyed() {
            proof {
                self.ship.view_position();
            }
            result.push((self.ship.renderable(), self.to_view(*self.ship.position())));
        }
        let mut i: usize = 0;
        while i < self.projectiles.len()
            invariant
                self.wf(),
                target == scene(self@),
                first == (if self@.ship.destroyed { 0int } else { 1int }),
                i <= self.projectiles@.len(),
                result@.len() == first + i,
                forall|j: int|
                    0 <= j < result@.len() ==> depicts(*(#[trigger] result@[j]).0, target[j].0)
                        && result@[j].1@ == target[j].1,
            decreases self.projectiles@.len() - i,
        {
            let projectile = &self.projectiles[i];
            assert(shot_within(self.projectiles@[i as int], 0));
            result.push((projectile.renderable(), self.to_view(*projectile.position())));
            i += 1;
        }
        let mut k: usize = 0;
        while k < self.asteroids.len()
            invariant
                self.wf(),
                target == scene(self@),
                first == (if self@.ship.destroyed { 0int } else { 1int }),
                k <= self.asteroids@.len(),
                result@.len() == first + self.projectiles@.len() + k,
                forall|j: int|
                    0 <= j < result@.len() ==> depicts(*(#[trigger] result@[j]).0, target[j].0)
                        && result@[j].1@ == target[j].1,
            decreases self.asteroids@.len() - k,
        {
            let asteroid = &self.asteroids[k];
            assert(rock_within(self.asteroids@[k as int], 0));
            result.push((asteroid.renderable(), self.to_view(*asteroid.position())));
            k += 1;
        }
        result
    }
}

/// The limits of a projectile in a world: it is drawn as a projectile, it is
/// where the ship can have shot it, and it has not flown further than the
/// tallest viewport and `slack` ticks of flight.
spec fn shot_within(shot: Projectile, slack: int) -> bool {
    &&& shot.wf()
    &&& -(MAX_HALF_WIDTH + SHIP_SPEED * MAX_STEP) <= shot.spec_position().x <= MAX_HALF_WIDTH
    &&& -MAX_HEIGHT - PROJECTILE_SPEED * slack <= shot.spec_position().y <= 0
}

/// The limits of an asteroid in a world: it is drawn as an asteroid, it is
/// where it can have appeared, and it has not fallen further than the lane's
/// floor and `slack` ticks of fall.
spec fn rock_within(rock: Asteroid, slack: int) -> bool {
    &&& rock.wf()
    &&& -MAX_HALF_WIDTH <= rock.spec_position().x <= MAX_HALF_WIDTH
    &&& -2 * MAX_HEIGHT <= rock.spec_position().y < LANE_FLOOR + ASTEROID_SPEED * slack
}

impl World {
    /// The limits that the entities of a world keep while a frame is worked
    /// out, when they may have moved for `slack` ticks since the field was
    /// last cleaned.
    spec fn fleet_within(&self, slack: int) -> bool {
        &&& self.ship.wf()
        &&& 0 <= self.score
        &&& forall|i: int|
            0 <= i < self.projectiles@.len() ==> shot_within(#[trigger] self.projectiles@[i], slack)
        &&& forall|i: int|
            0 <= i < self.asteroids@.len() ==> rock_within(#[trigger] self.asteroids@[i], slack)
    }

    /// The limits of the spawn timer: it has not run out, and it counts in
    /// parts of a tick that fit the machine's integers.
    spec fn timer_within(&self) -> bool {
        &&& 0 <= self.spawn_cooldown.num <= SPAWN_PERIOD
        &&& 1 <= self.spawn_cooldown.den <= 0x8000_0000
    }

    /// The limits that a world keeps while a frame is worked out.
    spec fn within(&self, slack: int) -> bool {
        self.fleet_within(slack) && self.timer_within()
    }

    /// Moves every entity for `dt` ticks: see `WorldModel::simulated`.
    fn simulate(&mut self, dt: u32)
        requires
            old(self).wf(),
            old(self)@.ship.destroyed || old(self)@.ship.cooldown - dt >= i64::MIN,
        ensures
            final(self).within(MAX_STEP as int),
            final(self)@ == old(self)@.simulated(dt as int),
    {
        if !self.ship.is_destroyed() {
            self.ship.move_ship(dt);
            if self.ship.fire_projectile(dt) {
                proof {
                    self.ship.view_position();
                }
                self.projectiles.push(Projectile::new(*self.ship.position()));
            }
            fly_all(&mut self.projectiles, dt);
        }
        fall_all(&mut self.asteroids, dt);
        assert(self@.projectiles =~= old(self)@.simulated(dt as int).projectiles);
        assert(self@.asteroids =~= old(self)@.simulated(dt as int).asteroids);
    }

    /// Gives the spawn timer `dt` ticks and tells whether an asteroid is due.
    /// The timer is left below zero when one is.
    fn spawn_timer_runs_out(&mut self, dt: u32) -> (due: bool)
        requires
            old(self).within(MAX_STEP as int),
        ensures
            due == old(self)@.spawn_due(dt as int),
            final(self)@ == (WorldModel {
                spawn_cooldown: old(self)@.spawn_cooldown.less(dt as int),
                ..old(self)@
            }),
            final(self).fleet_within(MAX_STEP as int),
            !due ==> final(self).timer_within(),
    {
        assert(dt * self.spawn_cooldown.den <= 0xffff_ffff * 0x8000_0000) by (nonlinear_arith)
            requires
                0 <= dt <= 0xffff_ffff,
                1 <= self.spawn_cooldown.den <= 0x8000_0000,
        ;
        assert(0 <= dt * self.spawn_cooldown.den) by (nonlinear_arith)
            requires
                0 <= dt,
                1 <= self.spawn_cooldown.den,
        ;
        self.spawn_cooldown.num -= dt as i64 * self.spawn_cooldown.den;
        self.spawn_cooldown.num < 0
    }

    /// Puts a new asteroid at `at` and sets the spawn timer to the spawn
    /// interval of the current score.
    fn add_asteroid(&mut self, at: Vector2<i64>)
        requires
            old(self).fleet_within(MAX_STEP as int),
            old(self)@.spawn_area(at@),
        ensures
            final(self).within(MAX_STEP as int),
            final(self)@ == (WorldModel {
                asteroids: old(self)@.asteroids.push(at@),
                spawn_cooldown: spawn_interval(old(self)@.score),
                ..old(self)@
            }),
    {
        self.asteroids.push(Asteroid::new(at));
        self.spawn_cooldown = Ratio::new(SPAWN_PERIOD, self.score as i64 + 1);
        assert(self@.asteroids =~= old(self)@.asteroids.push(at@));
    }

    /// Gives the spawn timer `dt` ticks and, where an asteroid is due, lets
    /// one appear at a place drawn at random, evenly over the spawn area.
    fn spawn_asteroids(&mut self, dt: u32)
        requires
            old(self).within(MAX_STEP as int),
        ensures
            final(self).within(MAX_STEP as int),
            exists|at: Vector2<int>|
                old(self)@.spawn_area(at) && final(self)@ == #[trigger] old(self)@.spawned(
                    dt as int,
                    at,
                ),
    {
        let half = self.viewport.x as i64 * SCALE / 2;
        let height = self.viewport.y as i64 * SCALE;
        if self.spawn_timer_runs_out(dt) {
            let x = sample_range(-half, half + 1);
            let y = sample_range(-(height * 2), -height + 1);
            let at = Vector2::new(x, y);
            self.add_asteroid(at);
            assert(final(self)@ == old(self)@.spawned(dt as int, at@));
        } else {
            let ghost at = Vector2 { x: 0int, y: -height as int };
            assert(old(self)@.spawn_area(at) && final(self)@ == old(self)@.spawned(dt as int, at));
        }
    }

    /// Gives the spawn timer `dt` ticks and, where an asteroid is due, lets
    /// one appear at `at`.
    fn spawn_asteroid_at(&mut self, dt: u32, at: Vector2<i64>)
        requires
            old(self).within(MAX_STEP as int),
            old(self)@.spawn_due(dt as int) ==> old(self)@.spawn_area(at@),
        ensures
            final(self).within(MAX_STEP as int),
            final(self)@ == old(self)@.spawned(dt as int, at@),
    {
        if self.spawn_timer_runs_out(dt) {
            self.add_asteroid(at);
        }
    }

    /// Every entity of the world has a polygon with a vertex.
    proof fn shapes_have_vertices(&self)
        requires
            self.within(MAX_STEP as int),
        ensures
            all_have_vertices(self.projectiles@),
            all_have_vertices(self.asteroids@),
            self.ship.spec_renderable().polygon@.len() > 0,
    {
        assert forall|i: int| 0 <= i < self.projectiles@.len() implies is_projectile_shape(
            (#[trigger] self.projectiles@[i]).spec_renderable(),
        ) by {
            assert(shot_within(self.projectiles@[i], MAX_STEP as int));
        }
        assert forall|k: int| 0 <= k < self.asteroids@.len() implies is_asteroid_shape(
            (#[trigger] self.asteroids@[k]).spec_renderable(),
        ) by {
            assert(rock_within(self.asteroids@[k], MAX_STEP as int));
        }
    }

    /// The entities of the world collide where the model says that they do.
    proof fn collisions_as_modelled(&self)
        requires
            self.within(MAX_STEP as int),
        ensures
            forall|k: int|
                0 <= k < self.asteroids@.len() ==> #[trigger] collides(
                    &self.asteroids@[k],
                    &self.ship,
                ) == rock_hits(self@.asteroids[k], self@.ship.position),
            forall|i: int, k: int|
                0 <= i < self.projectiles@.len() && 0 <= k < self.asteroids@.len()
                    ==> #[trigger] collides(&self.projectiles@[i], &self.asteroids@[k])
                    == shot_hits(self@.projectiles[i], self@.asteroids[k]),
    {
        self.ship.view_position();
        self.ship.footprint_is_square();
        assert forall|k: int| 0 <= k < self.asteroids@.len() implies #[trigger] collides(
            &self.asteroids@[k],
            &self.ship,
        ) == rock_hits(self@.asteroids[k], self@.ship.position) by {
            assert(rock_within(self.asteroids@[k], MAX_STEP as int));
            self.asteroids@[k].footprint_is_square();
        }
        assert forall|i: int, k: int|
            0 <= i < self.projectiles@.len() && 0 <= k
                < self.asteroids@.len() implies #[trigger] collides(
            &self.projectiles@[i],
            &self.asteroids@[k],
        ) == shot_hits(self@.projectiles[i], self@.asteroids[k]) by {
            assert(shot_within(self.projectiles@[i], MAX_STEP as int));
            assert(rock_within(self.asteroids@[k], MAX_STEP as int));
            self.projectiles@[i].footprint_is_square();
            self.asteroids@[k].footprint_is_square();
        }
    }

    /// Holds the ship against the asteroids, then the projectiles against the
    /// asteroids. Where an asteroid strikes the ship, the ship is destroyed
    /// and its projectiles are gone. What is handed back is the first
    /// projectile and asteroid that collide, by their indices, if any do:
    /// taking them out is left to the caller.
    fn handle_collisions(&mut self) -> (hit: Option<(usize, usize)>)
        requires
            old(self).within(MAX_STEP as int),
        ensures
            final(self).within(MAX_STEP as int),
            final(self)@ == old(self)@.wrecked(),
            match hit {
                Some((i, k)) => is_first_hit(
                    final(self)@.projectiles,
                    final(self)@.asteroids,
                    i as int,
                    k as int,
                ),
                None => first_hit(final(self)@.projectiles, final(self)@.asteroids) is None,
            },
    {
        proof {
            self.shapes_have_vertices();
            self.collisions_as_modelled();
        }
        if any_intersecting(&self.asteroids, &self.ship) {
            proof {
                let k = choose|k: int|
                    0 <= k < self.asteroids@.len() && #[trigger] collides(
                        &self.asteroids@[k],
                        &self.ship,
                    );
                assert(rock_hits(self@.asteroids[k], self@.ship.position));
            }
            self.ship.destroy();
            self.projectiles.clear();
            assert(self@.projectiles =~= Seq::empty());
        } else {
            assert forall|k: int| 0 <= k < self@.asteroids.len() implies !#[trigger] rock_hits(
                self@.asteroids[k],
                self@.ship.position,
            ) by {
                assert(!collides(&self.asteroids@[k], &self.ship));
            }
        }
        proof {
            self.shapes_have_vertices();
            self.collisions_as_modelled();
        }
        let hit = first_intersecting(&self.projectiles, &self.asteroids);
        proof {
            match hit {
                Some((i, k)) => {
                    assert(is_first_collision(
                        self.projectiles@,
                        self.asteroids@,
                        i as int,
                        k as int,
                    ));
                    assert forall|a: int, b: int|
                        0 <= a < self@.projectiles.len() && 0 <= b < self@.asteroids.len() && (a
                            < i || (a == i && b < k)) implies !#[trigger] shot_hits(
                        self@.projectiles[a],
                        self@.asteroids[b],
                    ) by {
                        assert(!collides(&self.projectiles@[a], &self.asteroids@[b]));
                    }
                },
                None => {
                    assert(no_collision(self.projectiles@, self.asteroids@));
                    assert forall|a: int, b: int|
                        0 <= a < self@.projectiles.len() && 0 <= b
                            < self@.asteroids.len() implies !#[trigger] shot_hits(
                        self@.projectiles[a],
                        self@.asteroids[b],
                    ) by {
                        assert(!collides(&self.projectiles@[a], &self.asteroids@[b]));
                    }
                    first_hit_none(self@.projectiles, self@.asteroids);
                },
            }
        }
        hit
    }

    /// Settles the collisions of a frame: see `WorldModel::wrecked` and
    /// `WorldModel::scored`. The first projectile and asteroid that collide are
    /// taken out once the search is over, and count one point.
    fn resolve_collisions(&mut self)
        requires
            old(self).within(MAX_STEP as int),
            old(self)@.score < i32::MAX,
        ensures
            final(self).within(MAX_STEP as int),
            final(self)@ == old(self)@.wrecked().scored(),
    {
        match self.handle_collisions() {
            Some((projectile, asteroid)) => {
                let ghost before = *self;
                proof {
                    first_hit_is(
                        self@.projectiles,
                        self@.asteroids,
                        projectile as int,
                        asteroid as int,
                    );
                }
                self.projectiles.remove(projectile);
                self.asteroids.remove(asteroid);
                self.score += 1;
                assert(self@.projectiles =~= before@.projectiles.remove(projectile as int));
                assert(self@.asteroids =~= before@.asteroids.remove(asteroid as int));
            },
            None => {},
        }
    }

    /// Takes out what has left the field: see `WorldModel::cleaned`.
    fn cleanup(&mut self)
        requires
            old(self).within(MAX_STEP as int),
        ensures
            final(self).wf(),
            final(self)@ == old(self)@.cleaned(),
    {
        let top = -(self.viewport.y as i64 * SCALE);
        let mut projectiles: Vec<Projectile> = Vec::new();
        std::mem::swap(&mut projectiles, &mut self.projectiles);
        let mut asteroids: Vec<Asteroid> = Vec::new();
        std::mem::swap(&mut asteroids, &mut self.asteroids);
        proof {
            places_of_filtered_over(projectiles@, top as int);
            places_of_filtered_under(asteroids@, LANE_FLOOR as int);
        }
        self.projectiles = retain_y_over(projectiles, top);
        self.asteroids = retain_y_under(asteroids, LANE_FLOOR);
        proof {
            assert forall|i: int| 0 <= i < self.projectiles@.len() implies shot_within(
                #[trigger] self.projectiles@[i],
                0,
            ) by {
                let shot = self.projectiles@[i];
                assert(old(self).projectiles@.contains(shot));
                let j = choose|j: int|
                    0 <= j < old(self).projectiles@.len() && old(self).projectiles@[j] == shot;
                assert(shot_within(old(self).projectiles@[j], MAX_STEP as int));
                old(self).projectiles@.lemma_filter_pred(
                    y_over::<Projectile>(top as int),
                    i,
                );
            }
            assert forall|i: int| 0 <= i < self.asteroids@.len() implies rock_within(
                #[trigger] self.asteroids@[i],
                0,
            ) by {
                let rock = self.asteroids@[i];
                assert(old(self).asteroids@.contains(rock));
                let j = choose|j: int|
                    0 <= j < old(self).asteroids@.len() && old(self).asteroids@[j] == rock;
                assert(rock_within(old(self).asteroids@[j], MAX_STEP as int));
                old(self).asteroids@.lemma_filter_pred(
                    y_under::<Asteroid>(LANE_FLOOR as int),
                    i,
                );
            }
        }
    }
}

/// Lets every projectile fly for `dt` ticks.
fn fly_all(projectiles: &mut Vec<Projectile>, dt: u32)
    requires
        forall|i: int|
            0 <= i < old(projectiles)@.len() ==> shot_within(#[trigger] old(projectiles)@[i], 0),
    ensures
        final(projectiles)@.len() == old(projectiles)@.len(),
        forall|i: int|
            0 <= i < final(projectiles)@.len() ==> shot_within(
                #[trigger] final(projectiles)@[i],
                MAX_STEP as int,
            ) && final(projectiles)@[i].spec_position()@ == risen(
                old(projectiles)@[i].spec_position()@,
                dt as int,
            ),
{
    let mut i: usize = 0;
    while i < projectiles.len()
        invariant
            i <= projectiles@.len(),
            projectiles@.len() == old(projectiles)@.len(),
            forall|j: int|
                0 <= j < i ==> shot_within(#[trigger] projectiles@[j], MAX_STEP as int)
                    && projectiles@[j].spec_position()@ == risen(
                    old(projectiles)@[j].spec_position()@,
                    dt as int,
                ),
            forall|j: int|
                i <= j < projectiles@.len() ==> #[trigger] projectiles@[j] == old(projectiles)@[j],
            forall|j: int|
                0 <= j < old(projectiles)@.len() ==> shot_within(#[trigger] old(projectiles)@[j], 0),
        decreases projectiles@.len() - i,
    {
        assert(shot_within(old(projectiles)@[i as int], 0));
        projectiles[i].simulate(dt);
        i += 1;
    }
}

/// Lets every asteroid fall for `dt` ticks.
fn fall_all(asteroids: &mut Vec<Asteroid>, dt: u32)
    requires
        forall|i: int|
            0 <= i < old(asteroids)@.len() ==> rock_within(#[trigger] old(asteroids)@[i], 0),
    ensures
        final(asteroids)@.len() == old(asteroids)@.len(),
        forall|i: int|
            0 <= i < final(asteroids)@.len() ==> rock_within(
                #[trigger] final(asteroids)@[i],
                MAX_STEP as int,
            ) && final(asteroids)@[i].spec_position()@ == fallen(
                old(asteroids)@[i].spec_position()@,
                dt as int,
            ),
{
    let mut i: usize = 0;
    while i < asteroids.len()
        invariant
            i <= asteroids@.len(),
            asteroids@.len() == old(asteroids)@.len(),
            forall|j: int|
                0 <= j < i ==> rock_within(#[trigger] asteroids@[j], MAX_STEP as int)
                    && asteroids@[j].spec_position()@ == fallen(
                    old(asteroids)@[j].spec_position()@,
                    dt as int,
                ),
            forall|j: int|
                i <= j < asteroids@.len() ==> #[trigger] asteroids@[j] == old(asteroids)@[j],
            forall|j: int|
                0 <= j < old(asteroids)@.len() ==> rock_within(#[trigger] old(asteroids)@[j], 0),
        decreases asteroids@.len() - i,
    {
        assert(rock_within(old(asteroids)@[i as int], 0));
        asteroids[i].simulate(dt);
        i += 1;
    }
}

/// Draws a whole number from `low` up to, but not including, `high`. This is
/// `Range::new(low, high)` of `rand::distributions`, sampled once with
/// `ind_sample` from the generator that `rand::thread_rng` hands out.
/// `Range::new` panics unless `low < high`, and its samples of a primitive
/// integer lie in `[low, high)`: no more than that is claimed here. The
/// generator is seeded from the operating system when a thread first asks for
/// it, and panics where that fails.
#[verifier::external_body]
fn sample_range(low: i64, high: i64) -> (drawn: i64)
    requires
        low < high,
    ensures
        low <= drawn < high,
{
    let range = rand::distributions::Range::new(low, high);
    rand::distributions::IndependentSample::ind_sample(&range, &mut rand::thread_rng())
}

} // verus!
