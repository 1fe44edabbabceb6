//! Upkeep of the entity collections: dropping, in one pass and in order, the
//! entities that have left the field.

use vstd::prelude::*;
use crate::entities::Entity;
use crate::util::Vector2;

verus! {

/// The test that an entity's y coordinate is greater than `bound`.
pub open spec fn y_over<T: Entity>(bound: int) -> spec_fn(T) -> bool {
    |entity: T| entity.spec_position().y > bound
}

/// The test that an entity's y coordinate is less than `bound`.
pub open spec fn y_under<T: Entity>(bound: int) -> spec_fn(T) -> bool {
    |entity: T| entity.spec_position().y < bound
}

/// The test that a point's y coordinate is greater than `bound`.
pub open spec fn point_over(bound: int) -> spec_fn(Vector2<int>) -> bool {
    |point: Vector2<int>| point.y > bound
}

/// The test that a point's y coordinate is less than `bound`.
pub open spec fn point_under(bound: int) -> spec_fn(Vector2<int>) -> bool {
    |point: Vector2<int>| point.y < bound
}

/// The positions of `items`, in order.
pub open spec fn places<T: Entity>(items: Seq<T>) -> Seq<Vector2<int>> {
    items.map_values(|entity: T| entity.spec_position()@)
}

/// Filtering a sequence that has grown by one item at its end either appends
/// that item to the filtered rest or leaves the filtered rest as it is.
proof fn filter_step<A>(all: Seq<A>, keep: spec_fn(A) -> bool, i: int)
    requires
        0 <= i < all.len(),
    ensures
        all.take(i + 1).filter(keep) == if keep(all[i]) {
            all.take(i).filter(keep).push(all[i])
        } else {
            all.take(i).filter(keep)
        },
{
    reveal(Seq::filter);
    assert(all.take(i + 1).drop_last() =~= all.take(i));
    assert(all.take(i + 1).last() == all[i]);
}

/// Keeps the entities whose y coordinate is greater than `bound`, in their order.
pub fn retain_y_over<T: Entity>(items: Vec<T>, bound: i64) -> (kept: Vec<T>)
    ensures
        kept@ == items@.filter(y_over::<T>(bound as int)),
        forall|j: int| 0 <= j < kept@.len() ==> items@.contains(#[trigger] kept@[j]),
{
    let ghost all = items@;
    let mut kept: Vec<T> = Vec::new();
    proof {
        reveal(Seq::filter);
        assert(all.take(0).filter(y_over::<T>(bound as int)) =~= Seq::<T>::empty());
    }
    for entity in it: items
        invariant
            it.seq() == all,
            kept@ == all.take(it.index() as int).filter(y_over::<T>(bound as int)),
            forall|j: int| 0 <= j < kept@.len() ==> all.contains(#[trigger] kept@[j]),
    {
        proof {
            filter_step(all, y_over::<T>(bound as int), it.index() as int);
        }
        if entity.position().y > bound {
            kept.push(entity);
        }
    }
    proof {
        assert(all.take(all.len() as int) =~= all);
    }
    kept
}

/// Keeps the entities whose y coordinate is less than `bound`, in their order.
pub fn retain_y_under<T: Entity>(items: Vec<T>, bound: i64) -> (kept: Vec<T>)
    ensures
        kept@ == items@.filter(y_under::<T>(bound as int)),
        forall|j: int| 0 <= j < kept@.len() ==> items@.contains(#[trigger] kept@[j]),
{
    let ghost all = items@;
    let mut kept: Vec<T> = Vec::new();
    proof {
        reveal(Seq::filter);
        assert(all.take(0).filter(y_under::<T>(bound as int)) =~= Seq::<T>::empty());
    }
    for entity in it: items
        invariant
            it.seq() == all,
            kept@ == all.take(it.index() as int).filter(y_under::<T>(bound as int)),
            forall|j: int| 0 <= j < kept@.len() ==> all.contains(#[trigger] kept@[j]),
    {
        proof {
            filter_step(all, y_under::<T>(bound as int), it.index() as int);
        }
        if entity.position().y < bound {
            kept.push(entity);
        }
    }
    proof {
        assert(all.take(all.len() as int) =~= all);
    }
    kept
}

/// Filtering entities by a test on their positions and then taking the
/// positions gives what taking the positions and then filtering them gives.
pub proof fn places_of_filtered<T: Entity>(
    items: Seq<T>,
    keep: spec_fn(T) -> bool,
    keep_place: spec_fn(Vector2<int>) -> bool,
)
    requires
        forall|entity: T| keep(entity) == keep_place(entity.spec_position()@),
    ensures
        places(items.filter(keep)) == places(items).filter(keep_place),
    decreases items.len(),
{
    reveal(Seq::filter);
    if items.len() == 0 {
        assert(places(items.filter(keep)) =~= places(items).filter(keep_place));
    } else {
        places_of_filtered(items.drop_last(), keep, keep_place);
        assert(places(items).drop_last() =~= places(items.drop_last()));
        assert(places(items).last() == items.last().spec_position()@);
        if keep(items.last()) {
            assert(places(items.drop_last().filter(keep).push(items.last())) =~= places(
                items.drop_last().filter(keep),
            ).push(items.last().spec_position()@));
        }
    }
}

/// Keeping the positions with a y over a bound is keeping the entities with such a y.
pub proof fn places_of_filtered_over<T: Entity>(items: Seq<T>, bound: int)
    ensures
        places(items.filter(y_over::<T>(bound))) == places(items).filter(point_over(bound)),
{
    places_of_filtered(items, y_over::<T>(bound), point_over(bound));
}

/// Keeping the positions with a y under a bound is keeping the entities with such a y.
pub proof fn places_of_filtered_under<T: Entity>(items: Seq<T>, bound: int)
    ensures
        places(items.filter(y_under::<T>(bound))) == places(items).filter(point_under(bound)),
{
    places_of_filtered(items, y_under::<T>(bound), point_under(bound));
}

} // verus!
