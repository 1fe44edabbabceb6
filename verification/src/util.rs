//! Plain geometry: a pair of coordinates, an axis-aligned rectangle, and the
//! overlap test that collisions are decided by.

use vstd::prelude::*;
use crate::entities::{bounds_of, Entity};

verus! {

/// A pair of coordinates.
#[derive(Clone, Copy, Debug)]
pub struct Vector2<T> {
    pub x: T,
    pub y: T,
}

impl<T> Vector2<T> {
    pub fn new(x: T, y: T) -> (v: Vector2<T>)
        ensures
            v.x == x,
            v.y == y,
    {
        Vector2 { x: x, y: y }
    }
}

impl View for Vector2<i64> {
    type V = Vector2<int>;

    open spec fn view(&self) -> Vector2<int> {
        Vector2 { x: self.x as int, y: self.y as int }
    }
}

/// The four extents of an axis-aligned rectangle. The y axis points down, so
/// `top` is the least y and `bottom` the greatest.
#[derive(Clone, Copy, Debug)]
pub struct Rect<T> {
    pub top: T,
    pub bottom: T,
    pub left: T,
    pub right: T,
}

impl<T> Rect<T> {
    pub fn new(top: T, bottom: T, left: T, right: T) -> (r: Rect<T>)
        ensures
            r.top == top,
            r.bottom == bottom,
            r.left == left,
            r.right == right,
    {
        Rect { top: top, bottom: bottom, left: left, right: right }
    }
}

impl View for Rect<i64> {
    type V = Rect<int>;

    open spec fn view(&self) -> Rect<int> {
        Rect {
            top: self.top as int,
            bottom: self.bottom as int,
            left: self.left as int,
            right: self.right as int,
        }
    }
}

/// A fraction, kept exactly as a numerator over a denominator.
#[derive(Clone, Copy, Debug)]
pub struct Ratio<T> {
    pub num: T,
    pub den: T,
}

impl<T> Ratio<T> {
    pub fn new(num: T, den: T) -> (r: Ratio<T>)
        ensures
            r.num == num,
            r.den == den,
    {
        Ratio { num: num, den: den }
    }
}

impl View for Ratio<i64> {
    type V = Ratio<int>;

    open spec fn view(&self) -> Ratio<int> {
        Ratio { num: self.num as int, den: self.den as int }
    }
}

impl Ratio<int> {
    /// Whether the fraction is above zero, its denominator being positive.
    pub open spec fn positive(self) -> bool {
        self.num > 0 && self.den > 0
    }

    /// Whether this fraction is less than `other`, both denominators being positive.
    pub open spec fn less_than(self, other: Ratio<int>) -> bool {
        self.num * other.den < other.num * self.den
    }

    /// The fraction less the whole number `count`.
    pub open spec fn less(self, count: int) -> Ratio<int> {
        Ratio { num: self.num - count * self.den, den: self.den }
    }
}

/// The rectangle `bound` moved by `offset`.
pub open spec fn shifted(bound: Rect<int>, offset: Vector2<int>) -> Rect<int> {
    Rect {
        top: bound.top + offset.y,
        bottom: bound.bottom + offset.y,
        left: bound.left + offset.x,
        right: bound.right + offset.x,
    }
}

/// The square of half-side `half` around `center`.
pub open spec fn square_around(center: Vector2<int>, half: int) -> Rect<int> {
    Rect {
        top: center.y - half,
        bottom: center.y + half,
        left: center.x - half,
        right: center.x + half,
    }
}

/// Whether two rectangles share interior points. All four comparisons are
/// strict: rectangles that only touch along an edge or at a corner do not overlap.
pub open spec fn overlaps(a: Rect<int>, b: Rect<int>) -> bool {
    &&& a.left < b.right
    &&& a.right > b.left
    &&& a.top < b.bottom
    &&& a.bottom > b.top
}

/// The bounding box of an entity's polygon, moved to where the entity is.
pub open spec fn footprint<T: Entity>(entity: &T) -> Rect<int> {
    shifted(bounds_of(entity.spec_renderable().polygon@)@, entity.spec_position()@)
}

/// Whether the footprints of two entities overlap.
pub open spec fn collides<T: Entity, V: Entity>(first: &T, second: &V) -> bool {
    overlaps(footprint(first), footprint(second))
}

/// Tells whether two entities collide: whether their bounding boxes, each
/// moved to its entity's position, overlap.
pub fn intersect<T: Entity, V: Entity>(first: &T, second: &V) -> (hit: bool)
    requires
        first.spec_renderable().polygon@.len() > 0,
        second.spec_renderable().polygon@.len() > 0,
    ensures
        hit == collides(first, second),
{
    let first_bound = first.renderable().bounding_box();
    let first_pos = first.position();
    let second_bound = second.renderable().bounding_box();
    let second_pos = second.position();

    (first_bound.left as i128) + (first_pos.x as i128) < (second_bound.right as i128) + (second_pos.x as i128)
        && (first_bound.right as i128) + (first_pos.x as i128) > (second_bound.left as i128) + (second_pos.x as i128)
        && (first_bound.top as i128) + (first_pos.y as i128) < (second_bound.bottom as i128) + (second_pos.y as i128)
        && (first_bound.bottom as i128) + (first_pos.y as i128) > (second_bound.top as i128) + (second_pos.y as i128)
}

/// The overlap test does not depend on the order of its arguments.
pub proof fn overlaps_symmetric(a: Rect<int>, b: Rect<int>)
    ensures
        overlaps(a, b) == overlaps(b, a),
{
}

/// Two entities collide whichever of them is named first.
pub proof fn collides_symmetric<T: Entity, V: Entity>(first: &T, second: &V)
    ensures
        collides(first, second) == collides(second, first),
{
}

/// Rectangles that meet exactly at an edge do not overlap, whichever edge it is.
pub proof fn touching_edges_do_not_overlap(a: Rect<int>, b: Rect<int>)
    requires
        a.right == b.left || a.left == b.right || a.bottom == b.top || a.top == b.bottom,
    ensures
        !overlaps(a, b),
        !overlaps(b, a),
{
}

/// Entities whose footprints meet exactly at an edge do not collide.
pub proof fn touching_entities_do_not_collide<T: Entity, V: Entity>(first: &T, second: &V)
    requires
        footprint(first).right == footprint(second).left || footprint(first).left == footprint(
            second,
        ).right || footprint(first).bottom == footprint(second).top || footprint(first).top
            == footprint(second).bottom,
    ensures
        !collides(first, second),
        !collides(second, first),
{
}

/// Whether `(i, k)` is the first colliding pair of `firsts` and `seconds`, when
/// each of `firsts` in turn is held against each of `seconds` in turn.
pub open spec fn is_first_collision<T: Entity, V: Entity>(
    firsts: Seq<T>,
    seconds: Seq<V>,
    i: int,
    k: int,
) -> bool {
    &&& 0 <= i < firsts.len()
    &&& 0 <= k < seconds.len()
    &&& collides(&firsts[i], &seconds[k])
    &&& forall|a: int, b: int|
        0 <= a < firsts.len() && 0 <= b < seconds.len() && (a < i || (a == i && b < k))
            ==> !#[trigger] collides(&firsts[a], &seconds[b])
}

/// Whether none of `firsts` collides with any of `seconds`.
pub open spec fn no_collision<T: Entity, V: Entity>(firsts: Seq<T>, seconds: Seq<V>) -> bool {
    forall|a: int, b: int|
        0 <= a < firsts.len() && 0 <= b < seconds.len() ==> !#[trigger] collides(
            &firsts[a],
            &seconds[b],
        )
}

/// Whether every one of `items` has a polygon with a vertex.
pub open spec fn all_have_vertices<T: Entity>(items: Seq<T>) -> bool {
    forall|i: int| 0 <= i < items.len() ==> (#[trigger] items[i]).spec_renderable().polygon@.len() > 0
}

/// Tells whether any of `items` collides with `target`.
pub fn any_intersecting<T: Entity, V: Entity>(items: &Vec<T>, target: &V) -> (any: bool)
    requires
        all_have_vertices(items@),
        target.spec_renderable().polygon@.len() > 0,
    ensures
        any == exists|k: int| 0 <= k < items@.len() && #[trigger] collides(&items@[k], target),
{
    let mut k: usize = 0;
    while k < items.len()
        invariant
            k <= items@.len(),
            all_have_vertices(items@),
            target.spec_renderable().polygon@.len() > 0,
            forall|j: int| 0 <= j < k ==> !#[trigger] collides(&items@[j], target),
        decreases items@.len() - k,
    {
        if intersect(&items[k], target) {
            return true;
        }
        k += 1;
    }
    false
}

/// Finds the first colliding pair: each of `firsts` in turn is held against each
/// of `seconds` in turn, and the search stops at the first pair that collides.
pub fn first_intersecting<T: Entity, V: Entity>(firsts: &Vec<T>, seconds: &Vec<V>) -> (found:
    Option<(usize, usize)>)
    requires
        all_have_vertices(firsts@),
        all_have_vertices(seconds@),
    ensures
        match found {
            Some((i, k)) => is_first_collision(firsts@, seconds@, i as int, k as int),
            None => no_collision(firsts@, seconds@),
        },
{
    let mut i: usize = 0;
    while i < firsts.len()
        invariant
            i <= firsts@.len(),
            all_have_vertices(firsts@),
            all_have_vertices(seconds@),
            forall|a: int, b: int|
                0 <= a < i && 0 <= b < seconds@.len() ==> !#[trigger] collides(
                    &firsts@[a],
                    &seconds@[b],
                ),
        decreases firsts@.len() - i,
    {
        let mut k: usize = 0;
        while k < seconds.len()
            invariant
                i < firsts@.len(),
                k <= seconds@.len(),
                all_have_vertices(firsts@),
                all_have_vertices(seconds@),
                forall|a: int, b: int|
                    0 <= a < i && 0 <= b < seconds@.len() ==> !#[trigger] collides(
                        &firsts@[a],
                        &seconds@[b],
                    ),
                forall|b: int| 0 <= b < k ==> !#[trigger] collides(&firsts@[i as int], &seconds@[b]),
            decreases seconds@.len() - k,
        {
            if intersect(&firsts[i], &seconds[k]) {
                return Some((i, k));
            }
            k += 1;
        }
        i += 1;
    }
    None
}

} // verus!
