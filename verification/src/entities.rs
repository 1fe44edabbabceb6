//! What is simulated: the ship, its projectiles and the asteroids, and the
//! shape that each of them is drawn with.

use vstd::prelude::*;
use crate::units::{
    ASTEROID_HALF, ASTEROID_SPEED, FIRE_COOLDOWN, INITIAL_COOLDOWN, MAX_HALF_WIDTH, MAX_STEP,
    PROJECTILE_HALF, PROJECTILE_SPEED, SCALE, SHIP_HALF, SHIP_SPEED,
};
use crate::util::{footprint, square_around, Rect, Vector2};

verus! {

/// A colour of four channels, each in hundredths: 0 is none, 100 is full.
#[derive(Clone, Copy, Debug, PartialEq, Eq, Structural)]
pub struct Color {
    pub red: u8,
    pub green: u8,
    pub blue: u8,
    pub alpha: u8,
}

/// How an entity is drawn: a colour, and a closed polygon around the entity's own origin.
#[derive(Debug)]
pub struct Renderable {
    pub color: Color,
    pub polygon: Vec<Vector2<i64>>,
}

/// Whether `bound` is the least rectangle that holds every vertex of `polygon`:
/// it holds them all, and each of its four extents is the coordinate of some vertex.
pub open spec fn is_bounding_box(bound: Rect<i64>, polygon: Seq<Vector2<i64>>) -> bool {
    &&& forall|i: int|
        0 <= i < polygon.len() ==> bound.left <= (#[trigger] polygon[i]).x <= bound.right
            && bound.top <= polygon[i].y <= bound.bottom
    &&& exists|i: int| 0 <= i < polygon.len() && (#[trigger] polygon[i]).x == bound.left
    &&& exists|i: int| 0 <= i < polygon.len() && (#[trigger] polygon[i]).x == bound.right
    &&& exists|i: int| 0 <= i < polygon.len() && (#[trigger] polygon[i]).y == bound.top
    &&& exists|i: int| 0 <= i < polygon.len() && (#[trigger] polygon[i]).y == bound.bottom
}

/// The bounding box of a polygon that has a vertex.
pub open spec fn bounds_of(polygon: Seq<Vector2<i64>>) -> Rect<i64> {
    choose|bound: Rect<i64>| is_bounding_box(bound, polygon)
}

/// A polygon has at most one bounding box.
pub proof fn bounding_box_unique(polygon: Seq<Vector2<i64>>, a: Rect<i64>, b: Rect<i64>)
    requires
        is_bounding_box(a, polygon),
        is_bounding_box(b, polygon),
    ensures
        a == b,
{
    let al = choose|i: int| 0 <= i < polygon.len() && (#[trigger] polygon[i]).x == a.left;
    let bl = choose|i: int| 0 <= i < polygon.len() && (#[trigger] polygon[i]).x == b.left;
    let ar = choose|i: int| 0 <= i < polygon.len() && (#[trigger] polygon[i]).x == a.right;
    let br = choose|i: int| 0 <= i < polygon.len() && (#[trigger] polygon[i]).x == b.right;
    let at = choose|i: int| 0 <= i < polygon.len() && (#[trigger] polygon[i]).y == a.top;
    let bt = choose|i: int| 0 <= i < polygon.len() && (#[trigger] polygon[i]).y == b.top;
    let ab = choose|i: int| 0 <= i < polygon.len() && (#[trigger] polygon[i]).y == a.bottom;
    let bb = choose|i: int| 0 <= i < polygon.len() && (#[trigger] polygon[i]).y == b.bottom;
    assert(a.left == b.left);
    assert(a.right == b.right);
    assert(a.top == b.top);
    assert(a.bottom == b.bottom);
}

/// A rectangle that is a bounding box of `polygon` is the one that `bounds_of` names.
pub proof fn bounds_of_is(polygon: Seq<Vector2<i64>>, bound: Rect<i64>)
    requires
        is_bounding_box(bound, polygon),
    ensures
        bounds_of(polygon) == bound,
{
    bounding_box_unique(polygon, bound, bounds_of(polygon));
}

impl Renderable {
    /// Whether the colour's channels are in range and the polygon has the three
    /// vertices that a closed shape needs.
    pub open spec fn wf(&self) -> bool {
        &&& self.color.red <= 100
        &&& self.color.green <= 100
        &&& self.color.blue <= 100
        &&& self.color.alpha <= 100
        &&& self.polygon@.len() >= 3
    }

    /// Makes a renderable, or nothing where the colour or the polygon is malformed.
    pub fn new(color: Color, polygon: Vec<Vector2<i64>>) -> (made: Option<Renderable>)
        ensures
            made is Some <==> (Renderable { color: color, polygon: polygon }).wf(),
            made matches Some(r) ==> r.color == color && r.polygon == polygon,
    {
        if color.red <= 100 && color.green <= 100 && color.blue <= 100 && color.alpha <= 100
            && polygon.len() >= 3 {
            Some(Renderable { color: color, polygon: polygon })
        } else {
            None
        }
    }

    /// The least rectangle that holds the polygon: `left` and `right` are the
    /// least and greatest x among its vertices, `top` and `bottom` the least
    /// and greatest y.
    pub fn bounding_box(&self) -> (bound: Rect<i64>)
        requires
            self.polygon@.len() > 0,
        ensures
            is_bounding_box(bound, self.polygon@),
            bound == bounds_of(self.polygon@),
            bound.top <= bound.bottom,
            bound.left <= bound.right,
    {
        let mut left: i64 = i64::MAX;
        let mut right: i64 = i64::MIN;
        let mut top: i64 = i64::MAX;
        let mut bottom: i64 = i64::MIN;
        let ghost mut at_left: int = 0;
        let ghost mut at_right: int = 0;
        let ghost mut at_top: int = 0;
        let ghost mut at_bottom: int = 0;

        let mut i: usize = 0;
        while i < self.polygon.len()
            invariant
                i <= self.polygon@.len(),
                forall|j: int|
                    0 <= j < i ==> left <= (#[trigger] self.polygon@[j]).x <= right && top
                        <= self.polygon@[j].y <= bottom,
                i > 0 ==> 0 <= at_left < i && self.polygon@[at_left].x == left,
                i > 0 ==> 0 <= at_right < i && self.polygon@[at_right].x == right,
                i > 0 ==> 0 <= at_top < i && self.polygon@[at_top].y == top,
                i > 0 ==> 0 <= at_bottom < i && self.polygon@[at_bottom].y == bottom,
                i == 0 ==> left == i64::MAX && right == i64::MIN && top == i64::MAX && bottom
                    == i64::MIN,
            decreases self.polygon@.len() - i,
        {
            let vertex = self.polygon[i];
            proof {
                if vertex.x < left || i == 0 {
                    at_left = i as int;
                }
                if vertex.y < top || i == 0 {
                    at_top = i as int;
                }
                if vertex.x > right || i == 0 {
                    at_right = i as int;
                }
                if vertex.y > bottom || i == 0 {
                    at_bottom = i as int;
                }
            }
            left = if vertex.x < left { vertex.x } else { left };
            top = if vertex.y < top { vertex.y } else { top };
            right = if vertex.x > right { vertex.x } else { right };
            bottom = if vertex.y > bottom { vertex.y } else { bottom };
            i += 1;
        }
        let bound = Rect::new(top, bottom, left, right);
        proof {
            assert(self.polygon@[at_left].x == bound.left);
            assert(self.polygon@[at_right].x == bound.right);
            assert(self.polygon@[at_top].y == bound.top);
            assert(self.polygon@[at_bottom].y == bound.bottom);
            bounds_of_is(self.polygon@, bound);
        }
        bound
    }
}

/// Something with a place in the world and a shape to draw there.
pub trait Entity {
    /// The shape that `renderable` hands out.
    spec fn spec_renderable(&self) -> Renderable;

    /// The place that `position` hands out.
    spec fn spec_position(&self) -> Vector2<i64>;

    fn renderable(&self) -> (r: &Renderable)
        ensures
            *r == self.spec_renderable(),
    ;

    fn position(&self) -> (p: &Vector2<i64>)
        ensures
            *p == self.spec_position(),
    ;
}

/// The colour of an asteroid: an opaque light gray.
pub open spec fn asteroid_color() -> Color {
    Color { red: 70, green: 70, blue: 70, alpha: 100 }
}

/// The corners of the square of half-side `half` around the origin, in the order in
/// which they are drawn.
pub open spec fn square_outline(half: i64) -> Seq<Vector2<i64>> {
    let low = (-half) as i64;
    seq![
        Vector2 { x: low, y: low },
        Vector2 { x: low, y: half },
        Vector2 { x: half, y: half },
        Vector2 { x: half, y: low },
    ]
}

/// The outline of an asteroid: a square of 16 pixels.
pub open spec fn asteroid_outline() -> Seq<Vector2<i64>> {
    square_outline(ASTEROID_HALF)
}

/// The colour of a projectile: an opaque red.
pub open spec fn projectile_color() -> Color {
    Color { red: 100, green: 0, blue: 0, alpha: 100 }
}

/// The outline of a projectile: a square of 4 pixels.
pub open spec fn projectile_outline() -> Seq<Vector2<i64>> {
    square_outline(PROJECTILE_HALF)
}

/// The colour of the ship: an opaque blue.
pub open spec fn ship_color() -> Color {
    Color { red: 20, green: 20, blue: 80, alpha: 100 }
}

/// The outline of the ship: a triangle that points up, 40 pixels wide and high.
pub open spec fn ship_outline() -> Seq<Vector2<i64>> {
    let low = (-SHIP_HALF) as i64;
    seq![
        Vector2 { x: low, y: SHIP_HALF },
        Vector2 { x: 0i64, y: low },
        Vector2 { x: SHIP_HALF, y: SHIP_HALF },
    ]
}

/// Whether `r` is how an asteroid is drawn.
pub open spec fn is_asteroid_shape(r: Renderable) -> bool {
    r.color == asteroid_color() && r.polygon@ =~= asteroid_outline()
}

/// Whether `r` is how a projectile is drawn.
pub open spec fn is_projectile_shape(r: Renderable) -> bool {
    r.color == projectile_color() && r.polygon@ =~= projectile_outline()
}

/// Whether `r` is how the ship is drawn.
pub open spec fn is_ship_shape(r: Renderable) -> bool {
    r.color == ship_color() && r.polygon@ =~= ship_outline()
}

/// The square of half-side `half` around the origin, in machine integers.
pub open spec fn centered_square(half: i64) -> Rect<i64> {
    Rect { top: (-half) as i64, bottom: half, left: (-half) as i64, right: half }
}

/// The bounding box of an asteroid's outline is the square of its half-side.
pub proof fn asteroid_bounds()
    ensures
        bounds_of(asteroid_outline()) == centered_square(ASTEROID_HALF),
{
    let outline = asteroid_outline();
    assert(outline[0].x == -ASTEROID_HALF && outline[0].y == -ASTEROID_HALF);
    assert(outline[2].x == ASTEROID_HALF && outline[2].y == ASTEROID_HALF);
    bounds_of_is(outline, centered_square(ASTEROID_HALF));
}

/// The bounding box of a projectile's outline is the square of its half-side.
pub proof fn projectile_bounds()
    ensures
        bounds_of(projectile_outline()) == centered_square(PROJECTILE_HALF),
{
    let outline = projectile_outline();
    assert(outline[0].x == -PROJECTILE_HALF && outline[0].y == -PROJECTILE_HALF);
    assert(outline[2].x == PROJECTILE_HALF && outline[2].y == PROJECTILE_HALF);
    bounds_of_is(outline, centered_square(PROJECTILE_HALF));
}

/// The bounding box of the ship's outline is the square of its half-side.
pub proof fn ship_bounds()
    ensures
        bounds_of(ship_outline()) == centered_square(SHIP_HALF),
{
    let outline = ship_outline();
    assert(outline[0].x == -SHIP_HALF && outline[0].y == SHIP_HALF);
    assert(outline[1].x == 0 && outline[1].y == -SHIP_HALF);
    assert(outline[2].x == SHIP_HALF && outline[2].y == SHIP_HALF);
    bounds_of_is(outline, centered_square(SHIP_HALF));
}

/// A rock that falls down the screen.
pub struct Asteroid {
    position: Vector2<i64>,
    renderable: Renderable,
}

impl Asteroid {
    /// Whether the asteroid is drawn as an asteroid.
    pub open spec fn wf(&self) -> bool {
        is_asteroid_shape(self.spec_renderable())
    }

    pub fn new(position: Vector2<i64>) -> (asteroid: Asteroid)
        ensures
            asteroid.wf(),
            asteroid.spec_position() == position,
    {
        let low: i64 = -ASTEROID_HALF;
        let high: i64 = ASTEROID_HALF;
        let shape = Renderable::new(
            Color { red: 70, green: 70, blue: 70, alpha: 100 },
            vec![
                Vector2::new(low, low),
                Vector2::new(low, high),
                Vector2::new(high, high),
                Vector2::new(high, low),
            ],
        );
        Asteroid { position: position, renderable: shape.unwrap() }
    }

    /// Lets the asteroid fall for `dt` ticks.
    pub fn simulate(&mut self, dt: u32)
        requires
            old(self).spec_position().y + ASTEROID_SPEED * dt <= i64::MAX,
        ensures
            final(self).spec_position().x == old(self).spec_position().x,
            final(self).spec_position().y == old(self).spec_position().y + ASTEROID_SPEED * dt,
            final(self).spec_renderable() == old(self).spec_renderable(),
    {
        self.position.y += dt as i64 * ASTEROID_SPEED;
    }

    /// An asteroid covers the square of its half-side around its position.
    pub proof fn footprint_is_square(&self)
        requires
            self.wf(),
        ensures
            footprint(self) == square_around(self.spec_position()@, ASTEROID_HALF as int),
    {
        asteroid_bounds();
    }
}

impl Entity for Asteroid {
    closed spec fn spec_renderable(&self) -> Renderable {
        self.renderable
    }

    closed spec fn spec_position(&self) -> Vector2<i64> {
        self.position
    }

    fn renderable(&self) -> (r: &Renderable) {
        &self.renderable
    }

    fn position(&self) -> (p: &Vector2<i64>) {
        &self.position
    }
}

/// A shot that flies up the screen.
pub struct Projectile {
    position: Vector2<i64>,
    renderable: Renderable,
}

impl Projectile {
    /// Whether the projectile is drawn as a projectile.
    pub open spec fn wf(&self) -> bool {
        is_projectile_shape(self.spec_renderable())
    }

    pub fn new(position: Vector2<i64>) -> (projectile: Projectile)
        ensures
            projectile.wf(),
            projectile.spec_position() == position,
    {
        let low: i64 = -PROJECTILE_HALF;
        let high: i64 = PROJECTILE_HALF;
        let shape = Renderable::new(
            Color { red: 100, green: 0, blue: 0, alpha: 100 },
            vec![
                Vector2::new(low, low),
                Vector2::new(low, high),
                Vector2::new(high, high),
                Vector2::new(high, low),
            ],
        );
        Projectile { position: position, renderable: shape.unwrap() }
    }

    /// Lets the projectile fly for `dt` ticks.
    pub fn simulate(&mut self, dt: u32)
        requires
            old(self).spec_position().y - PROJECTILE_SPEED * dt >= i64::MIN,
        ensures
            final(self).spec_position().x == old(self).spec_position().x,
            final(self).spec_position().y == old(self).spec_position().y - PROJECTILE_SPEED * dt,
            final(self).spec_renderable() == old(self).spec_renderable(),
    {
        self.position.y -= dt as i64 * PROJECTILE_SPEED;
    }

    pub fn renderable(&self) -> (r: &Renderable)
        ensures
            *r == self.spec_renderable(),
    {
        &self.renderable
    }

    /// A projectile covers the square of its half-side around its position.
    pub proof fn footprint_is_square(&self)
        requires
            self.wf(),
        ensures
            footprint(self) == square_around(self.spec_position()@, PROJECTILE_HALF as int),
    {
        projectile_bounds();
    }
}

impl Entity for Projectile {
    closed spec fn spec_renderable(&self) -> Renderable {
        self.renderable
    }

    closed spec fn spec_position(&self) -> Vector2<i64> {
        self.position
    }

    fn renderable(&self) -> (r: &Renderable) {
        &self.renderable
    }

    fn position(&self) -> (p: &Vector2<i64>) {
        &self.position
    }
}

/// What a ship is, in unbounded integers: where it stands, which controls are
/// held, and how it fares.
pub struct ShipModel {
    pub position: Vector2<int>,
    pub thrust_left: bool,
    pub thrust_right: bool,
    pub firing: bool,
    /// Ticks until the next shot is allowed; a shot is allowed once this is below zero.
    pub cooldown: int,
    pub destroyed: bool,
    /// Half the width of the lane that the ship is held in, in sub-pixels.
    pub moveable_width: int,
}

impl ShipModel {
    /// A fresh ship: at the origin, nothing held, ready to shoot, in a lane of no width.
    pub open spec fn initial() -> ShipModel {
        ShipModel {
            position: Vector2 { x: 0, y: 0 },
            thrust_left: false,
            thrust_right: false,
            firing: false,
            cooldown: INITIAL_COOLDOWN as int,
            destroyed: false,
            moveable_width: 0,
        }
    }

    /// The limits that every ship keeps: it stays on the line y = 0, its lane is
    /// at most as wide as the widest viewport, and it is never further left of
    /// the lane than one longest step carries it, nor right of the widest lane.
    pub open spec fn wf(self) -> bool {
        &&& self.position.y == 0
        &&& 0 <= self.moveable_width <= MAX_HALF_WIDTH
        &&& -(MAX_HALF_WIDTH + SHIP_SPEED * MAX_STEP) <= self.position.x <= MAX_HALF_WIDTH
    }

    /// Where the ship stands once right thrust has been applied for `dt` ticks
    /// and the ship has been held to the left edge of its lane.
    pub open spec fn pushed_right(self, dt: int) -> int {
        let x = if self.thrust_right {
            self.position.x + SHIP_SPEED * dt
        } else {
            self.position.x
        };
        if x < -self.moveable_width {
            -self.moveable_width
        } else {
            x
        }
    }

    /// The ship after `dt` ticks of movement. Right thrust is applied first and
    /// the result held to the left edge of the lane; then left thrust is
    /// applied and the result held to the right edge.
    pub open spec fn moved(self, dt: int) -> ShipModel {
        let pushed = self.pushed_right(dt);
        let x = if self.thrust_left {
            pushed - SHIP_SPEED * dt
        } else {
            pushed
        };
        let held = if x > self.moveable_width {
            self.moveable_width
        } else {
            x
        };
        ShipModel { position: Vector2 { x: held, y: self.position.y }, ..self }
    }

    /// Whether the ship shoots in a step of `dt` ticks: fire is held and the
    /// cooldown, less the step, is below zero.
    pub open spec fn fires(self, dt: int) -> bool {
        self.firing && self.cooldown - dt < 0
    }

    /// The ship after its gun has been given `dt` ticks: the cooldown is
    /// wound up again after a shot, and has run down by `dt` otherwise.
    pub open spec fn cooled(self, dt: int) -> ShipModel {
        ShipModel {
            cooldown: if self.fires(dt) {
                FIRE_COOLDOWN as int
            } else {
                self.cooldown - dt
            },
            ..self
        }
    }
}

/// One move of the ship: the thrust that is held, and the length of the step in ticks.
pub struct Move {
    pub thrust_left: bool,
    pub thrust_right: bool,
    pub dt: int,
}

impl ShipModel {
    /// Whether left thrust carries the ship past the left edge of its lane in
    /// a step of `dt` ticks.
    pub open spec fn overshoots_left(self, dt: int) -> bool {
        self.thrust_left && self.pushed_right(dt) - SHIP_SPEED * dt < -self.moveable_width
    }

    /// The ship after each of `moves` in turn, the thrust being set before each.
    pub open spec fn moved_through(self, moves: Seq<Move>) -> ShipModel
        decreases moves.len(),
    {
        if moves.len() == 0 {
            self
        } else {
            let before = self.moved_through(moves.drop_last());
            let last = moves.last();
            (ShipModel {
                thrust_left: last.thrust_left,
                thrust_right: last.thrust_right,
                ..before
            }).moved(last.dt)
        }
    }
}

/// The player's ship.
pub struct Ship {
    position: Vector2<i64>,
    thrust_left: bool,
    thrust_right: bool,
    firing: bool,
    cooldown: i64,
    destroyed: bool,
    moveable_width: i64,
    renderable: Renderable,
}

impl View for Ship {
    type V = ShipModel;

    closed spec fn view(&self) -> ShipModel {
        ShipModel {
            position: self.position@,
            thrust_left: self.thrust_left,
            thrust_right: self.thrust_right,
            firing: self.firing,
            cooldown: self.cooldown as int,
            destroyed: self.destroyed,
            moveable_width: self.moveable_width as int,
        }
    }
}

impl Ship {
    /// Whether the ship is drawn as a ship and keeps the limits of its model.
    pub open spec fn wf(&self) -> bool {
        &&& is_ship_shape(self.spec_renderable())
        &&& self@.wf()
    }

    pub fn new() -> (ship: Ship)
        ensures
            ship.wf(),
            ship@ == ShipModel::initial(),
    {
        let low: i64 = -SHIP_HALF;
        let high: i64 = SHIP_HALF;
        let shape = Renderable::new(
            Color { red: 20, green: 20, blue: 80, alpha: 100 },
            vec![Vector2::new(low, high), Vector2::new(0, low), Vector2::new(high, high)],
        );
        Ship {
            position: Vector2::new(0, 0),
            thrust_left: false,
            thrust_right: false,
            firing: false,
            destroyed: false,
            moveable_width: 0,
            cooldown: INITIAL_COOLDOWN,
            renderable: shape.unwrap(),
        }
    }

    /// Holds or releases the left thrust.
    pub fn thrust_left(&mut self, enable: bool)
        ensures
            final(self)@ == (ShipModel { thrust_left: enable, ..old(self)@ }),
            final(self).spec_renderable() == old(self).spec_renderable(),
            old(self).wf() ==> final(self).wf(),
    {
        self.thrust_left = enable;
    }

    /// Holds or releases the right thrust.
    pub fn thrust_right(&mut self, enable: bool)
        ensures
            final(self)@ == (ShipModel { thrust_right: enable, ..old(self)@ }),
            final(self).spec_renderable() == old(self).spec_renderable(),
            old(self).wf() ==> final(self).wf(),
    {
        self.thrust_right = enable;
    }

    /// Holds or releases the trigger.
    pub fn fire(&mut self, enable: bool)
        ensures
            final(self)@ == (ShipModel { firing: enable, ..old(self)@ }),
            final(self).spec_renderable() == old(self).spec_renderable(),
            old(self).wf() ==> final(self).wf(),
    {
        self.firing = enable;
    }

    /// Moves the ship for `dt` ticks under the thrust that is held.
    pub fn move_ship(&mut self, dt: u32)
        requires
            old(self).wf(),
        ensures
            final(self).wf(),
            final(self)@ == old(self)@.moved(dt as int),
            final(self)@.position.x <= final(self)@.moveable_width,
            !old(self)@.thrust_left ==> -final(self)@.moveable_width <= final(self)@.position.x,
    {
        if self.thrust_right {
            self.position.x += dt as i64 * SHIP_SPEED;
        }
        if self.position.x < -self.moveable_width {
            self.position.x = -self.moveable_width;
        }
        if self.thrust_left {
            self.position.x -= dt as i64 * SHIP_SPEED;
        }
        if self.position.x > self.moveable_width {
            self.position.x = self.moveable_width;
        }
    }

    /// Gives the gun `dt` ticks and tells whether it shot.
    pub fn fire_projectile(&mut self, dt: u32) -> (fired: bool)
        requires
            old(self)@.cooldown - dt >= i64::MIN,
        ensures
            fired == old(self)@.fires(dt as int),
            final(self)@ == old(self)@.cooled(dt as int),
            final(self).spec_renderable() == old(self).spec_renderable(),
            old(self).wf() ==> final(self).wf(),
    {
        self.cooldown -= dt as i64;
        if self.firing && self.cooldown < 0 {
            self.cooldown = FIRE_COOLDOWN;
            true
        } else {
            false
        }
    }

    /// Marks the ship as destroyed. Nothing undoes this.
    pub fn destroy(&mut self)
        ensures
            final(self)@ == (ShipModel { destroyed: true, ..old(self)@ }),
            final(self).spec_renderable() == old(self).spec_renderable(),
            old(self).wf() ==> final(self).wf(),
    {
        self.destroyed = true;
    }

    pub fn is_destroyed(&self) -> (destroyed: bool)
        ensures
            destroyed == self@.destroyed,
    {
        self.destroyed
    }

    /// The ticks left before the gun may shoot again.
    pub fn cooldown(&self) -> (ticks: i64)
        ensures
            ticks == self@.cooldown,
    {
        self.cooldown
    }

    /// Sets the lane to half of a viewport that is `moveable` pixels wide.
    pub fn set_moveable_width(&mut self, moveable: u32)
        ensures
            final(self)@ == (ShipModel {
                moveable_width: moveable * SCALE / 2,
                ..old(self)@
            }),
            final(self).spec_renderable() == old(self).spec_renderable(),
            old(self).wf() ==> final(self).wf(),
    {
        self.moveable_width = moveable as i64 * SCALE / 2;
    }

    /// The model's position is the entity's position.
    pub proof fn view_position(&self)
        ensures
            self@.position == self.spec_position()@,
    {
    }

    /// The ship covers the square of its half-side around its position.
    pub proof fn footprint_is_square(&self)
        requires
            self.wf(),
        ensures
            footprint(self) == square_around(self@.position, SHIP_HALF as int),
    {
        ship_bounds();
    }
}

impl Entity for Ship {
    closed spec fn spec_renderable(&self) -> Renderable {
        self.renderable
    }

    closed spec fn spec_position(&self) -> Vector2<i64> {
        self.position
    }

    fn renderable(&self) -> (r: &Renderable) {
        &self.renderable
    }

    fn position(&self) -> (p: &Vector2<i64>) {
        &self.position
    }
}

/// Whatever thrust is held and however long the step, a move leaves the ship
/// at or left of the right edge of its lane.
pub proof fn moved_keeps_right_edge(ship: ShipModel, dt: int)
    ensures
        ship.moved(dt).position.x <= ship.moveable_width,
{
}

/// A move leaves the ship at or right of the left edge of its lane, unless left
/// thrust carries it past that edge within this step: the ship is held to the
/// left edge before left thrust is applied, not after.
pub proof fn moved_keeps_left_edge(ship: ShipModel, dt: int)
    requires
        ship.moveable_width >= 0,
        !ship.overshoots_left(dt),
    ensures
        -ship.moveable_width <= ship.moved(dt).position.x,
{
}

/// A ship that starts in its lane is, after any moves under any thrust, at or
/// left of the right edge of the lane, and no further left of the left edge
/// than left thrust has carried it in the last move alone.
pub proof fn lane_kept_through_moves(ship: ShipModel, moves: Seq<Move>)
    requires
        ship.moveable_width >= 0,
        -ship.moveable_width <= ship.position.x <= ship.moveable_width,
        forall|i: int| 0 <= i < moves.len() ==> (#[trigger] moves[i]).dt >= 0,
    ensures
        ship.moved_through(moves).moveable_width == ship.moveable_width,
        ship.moved_through(moves).position.x <= ship.moveable_width,
        -ship.moveable_width - (if moves.len() > 0 && moves.last().thrust_left {
            SHIP_SPEED * moves.last().dt
        } else {
            0
        }) <= ship.moved_through(moves).position.x,
    decreases moves.len(),
{
    if moves.len() > 0 {
        lane_kept_through_moves(ship, moves.drop_last());
        assert(moves.last().dt >= 0);
    }
}

/// With fire held and the cooldown below zero, the gun shoots in any step and
/// its cooldown is wound up; a further step of no ticks does not shoot.
pub proof fn first_shot_then_hold(ship: ShipModel, dt: int)
    requires
        ship.firing,
        ship.cooldown < 0,
        dt >= 0,
    ensures
        ship.fires(dt),
        ship.cooled(dt).cooldown == FIRE_COOLDOWN,
        !ship.cooled(dt).fires(0),
{
}

} // verus!
