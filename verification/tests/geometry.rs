use space_shooter::collection::{retain_y_over, retain_y_under};
use space_shooter::entities::{Asteroid, Color, Entity, Projectile, Renderable, Ship};
use space_shooter::units::SCALE;
use space_shooter::util::{
    any_intersecting, first_intersecting, intersect, Ratio, Rect, Vector2,
};

fn px(x: i64, y: i64) -> Vector2<i64> {
    Vector2::new(x * SCALE, y * SCALE)
}

#[test]
fn vector2_new_keeps_both_coordinates() {
    let v = Vector2::new(3, -7);
    assert_eq!(v.x, 3);
    assert_eq!(v.y, -7);
}

#[test]
fn rect_new_keeps_the_order_of_its_extents() {
    let r = Rect::new(1, 2, 3, 4);
    assert_eq!(r.top, 1);
    assert_eq!(r.bottom, 2);
    assert_eq!(r.left, 3);
    assert_eq!(r.right, 4);
}

#[test]
fn ratio_new_keeps_numerator_and_denominator() {
    let r = Ratio::new(10, 3);
    assert_eq!(r.num, 10);
    assert_eq!(r.den, 3);
}

#[test]
fn one_pixel_has_a_million_sub_pixels() {
    assert_eq!(SCALE, 1_000_000);
}

#[test]
fn bounding_box_takes_least_and_greatest_coordinates() {
    let white = Color { red: 100, green: 100, blue: 100, alpha: 100 };
    let shape = Renderable::new(
        white,
        vec![Vector2::new(-5, 9), Vector2::new(4, -3), Vector2::new(0, 0), Vector2::new(-1, 12)],
    )
    .unwrap();
    let bound = shape.bounding_box();
    assert_eq!(bound.left, -5);
    assert_eq!(bound.right, 4);
    assert_eq!(bound.top, -3);
    assert_eq!(bound.bottom, 12);
}

#[test]
fn bounding_box_of_polygon_left_of_and_above_the_origin() {
    let white = Color { red: 100, green: 100, blue: 100, alpha: 100 };
    let shape = Renderable::new(
        white,
        vec![Vector2::new(-50, -9), Vector2::new(-40, -30), Vector2::new(-45, -1)],
    )
    .unwrap();
    let bound = shape.bounding_box();
    assert_eq!((bound.left, bound.right), (-50, -40));
    assert_eq!((bound.top, bound.bottom), (-30, -1));
    assert!(bound.top <= bound.bottom && bound.left <= bound.right);
}

#[test]
fn bounding_box_reaches_the_ends_of_the_integers() {
    let white = Color { red: 100, green: 100, blue: 100, alpha: 100 };
    let shape = Renderable::new(
        white,
        vec![
            Vector2::new(i64::MAX, i64::MAX),
            Vector2::new(i64::MIN, i64::MIN),
            Vector2::new(0, 0),
        ],
    )
    .unwrap();
    let bound = shape.bounding_box();
    assert_eq!((bound.left, bound.right), (i64::MIN, i64::MAX));
    assert_eq!((bound.top, bound.bottom), (i64::MIN, i64::MAX));
}

#[test]
fn bounding_box_of_a_single_vertex_is_that_vertex() {
    let shape = Renderable {
        color: Color { red: 0, green: 0, blue: 0, alpha: 100 },
        polygon: vec![Vector2::new(i64::MAX, 7)],
    };
    let bound = shape.bounding_box();
    assert_eq!((bound.left, bound.right), (i64::MAX, i64::MAX));
    assert_eq!((bound.top, bound.bottom), (7, 7));
}

#[test]
fn renderable_new_rejects_a_polygon_of_two_vertices() {
    let white = Color { red: 100, green: 100, blue: 100, alpha: 100 };
    assert!(Renderable::new(white, vec![Vector2::new(0, 0), Vector2::new(1, 1)]).is_none());
    assert!(Renderable::new(white, Vec::new()).is_none());
}

#[test]
fn renderable_new_rejects_a_channel_over_one_hundred() {
    let triangle = || vec![Vector2::new(0, 0), Vector2::new(1, 1), Vector2::new(2, 0)];
    let fine = Color { red: 100, green: 0, blue: 50, alpha: 100 };
    assert!(Renderable::new(fine, triangle()).is_some());
    assert!(Renderable::new(Color { red: 101, ..fine }, triangle()).is_none());
    assert!(Renderable::new(Color { green: 101, ..fine }, triangle()).is_none());
    assert!(Renderable::new(Color { blue: 255, ..fine }, triangle()).is_none());
    assert!(Renderable::new(Color { alpha: 101, ..fine }, triangle()).is_none());
}

#[test]
fn renderable_new_keeps_colour_and_polygon() {
    let teal = Color { red: 0, green: 50, blue: 50, alpha: 100 };
    let polygon = vec![Vector2::new(0, 0), Vector2::new(1, 1), Vector2::new(2, 0)];
    let shape = Renderable::new(teal, polygon).unwrap();
    assert_eq!(shape.color, teal);
    assert_eq!(shape.polygon.len(), 3);
    assert_eq!((shape.polygon[1].x, shape.polygon[1].y), (1, 1));
}

#[test]
fn projectile_and_asteroid_at_the_same_place_intersect() {
    let projectile = Projectile::new(px(0, -10));
    let asteroid = Asteroid::new(px(0, -10));
    assert!(intersect(&projectile, &asteroid));
    assert!(intersect(&asteroid, &projectile));
}

#[test]
fn intersect_gives_the_same_answer_in_either_order() {
    let places = [px(0, 0), px(9, 0), px(10, 0), px(11, 0), px(0, -10), px(-9, 9), px(30, 30)];
    let asteroid = Asteroid::new(px(0, 0));
    let ship = Ship::new();
    for place in places {
        let projectile = Projectile::new(place);
        assert_eq!(intersect(&projectile, &asteroid), intersect(&asteroid, &projectile));
        assert_eq!(intersect(&projectile, &ship), intersect(&ship, &projectile));
        let other = Asteroid::new(place);
        assert_eq!(intersect(&other, &ship), intersect(&ship, &other));
    }
}

#[test]
fn boxes_that_touch_at_an_edge_do_not_intersect() {
    // An asteroid reaches 8 pixels from its centre, a projectile 2.
    let asteroid = Asteroid::new(px(0, 0));
    assert!(!intersect(&Projectile::new(px(10, 0)), &asteroid));
    assert!(!intersect(&Projectile::new(px(-10, 0)), &asteroid));
    assert!(!intersect(&Projectile::new(px(0, 10)), &asteroid));
    assert!(!intersect(&Projectile::new(px(0, -10)), &asteroid));
    assert!(!intersect(&asteroid, &Projectile::new(px(10, 0))));
}

#[test]
fn boxes_that_overlap_by_one_sub_pixel_intersect() {
    let asteroid = Asteroid::new(px(0, 0));
    assert!(intersect(&Projectile::new(Vector2::new(10 * SCALE - 1, 0)), &asteroid));
    assert!(intersect(&Projectile::new(Vector2::new(-10 * SCALE + 1, 0)), &asteroid));
    assert!(intersect(&Projectile::new(Vector2::new(0, 10 * SCALE - 1)), &asteroid));
    assert!(intersect(&Projectile::new(Vector2::new(0, -10 * SCALE + 1)), &asteroid));
}

#[test]
fn boxes_that_overlap_on_one_axis_only_do_not_intersect() {
    let asteroid = Asteroid::new(px(0, 0));
    assert!(!intersect(&Projectile::new(px(0, 100)), &asteroid));
    assert!(!intersect(&Projectile::new(px(100, 0)), &asteroid));
}

#[test]
fn intersect_does_not_overflow_at_the_ends_of_the_integers() {
    let far = Asteroid::new(Vector2::new(i64::MAX, i64::MAX));
    let near = Asteroid::new(Vector2::new(i64::MAX - 1, i64::MAX));
    let opposite = Projectile::new(Vector2::new(i64::MIN, i64::MIN));
    assert!(intersect(&far, &near));
    assert!(!intersect(&far, &opposite));
    assert!(!intersect(&opposite, &far));
}

#[test]
fn ship_covers_forty_pixels_around_its_position() {
    let ship = Ship::new();
    // The ship reaches 20 pixels from the origin, an asteroid 8 from its centre.
    assert!(!intersect(&Asteroid::new(px(0, -28)), &ship));
    assert!(intersect(&Asteroid::new(Vector2::new(0, -28 * SCALE + 1)), &ship));
    assert!(!intersect(&Asteroid::new(px(28, 0)), &ship));
    assert!(intersect(&Asteroid::new(Vector2::new(28 * SCALE - 1, 0)), &ship));
}

#[test]
fn any_intersecting_finds_a_hit_among_misses() {
    let ship = Ship::new();
    let misses = vec![Asteroid::new(px(0, -100)), Asteroid::new(px(100, 0))];
    assert!(!any_intersecting(&misses, &ship));
    let hits = vec![Asteroid::new(px(0, -100)), Asteroid::new(px(100, 0)), Asteroid::new(px(5, 5))];
    assert!(any_intersecting(&hits, &ship));
    let none: Vec<Asteroid> = Vec::new();
    assert!(!any_intersecting(&none, &ship));
}

#[test]
fn first_intersecting_takes_the_first_pair_in_scan_order() {
    let projectiles = vec![Projectile::new(px(500, 0)), Projectile::new(px(0, -10))];
    let asteroids = vec![
        Asteroid::new(px(-300, 0)),
        Asteroid::new(px(1, -10)),
        Asteroid::new(px(0, -10)),
        Asteroid::new(px(500, 0)),
    ];
    // Projectile 0 is held against every asteroid before projectile 1 is looked at.
    assert_eq!(first_intersecting(&projectiles, &asteroids), Some((0, 3)));
    let projectiles = vec![Projectile::new(px(900, 0)), Projectile::new(px(0, -10))];
    assert_eq!(first_intersecting(&projectiles, &asteroids), Some((1, 1)));
}

#[test]
fn first_intersecting_finds_nothing_where_nothing_collides() {
    let projectiles = vec![Projectile::new(px(0, 0)), Projectile::new(px(0, -100))];
    let asteroids = vec![Asteroid::new(px(10, 0)), Asteroid::new(px(0, -50))];
    assert_eq!(first_intersecting(&projectiles, &asteroids), None);
    let none: Vec<Asteroid> = Vec::new();
    assert_eq!(first_intersecting(&projectiles, &none), None);
    let no_shots: Vec<Projectile> = Vec::new();
    assert_eq!(first_intersecting(&no_shots, &asteroids), None);
}

#[test]
fn one_projectile_over_two_asteroids_gives_one_pair() {
    let projectiles = vec![Projectile::new(px(0, -10))];
    let asteroids = vec![Asteroid::new(px(0, -10)), Asteroid::new(px(3, -12))];
    assert!(intersect(&projectiles[0], &asteroids[0]));
    assert!(intersect(&projectiles[0], &asteroids[1]));
    assert_eq!(first_intersecting(&projectiles, &asteroids), Some((0, 0)));
}

fn heights(items: &Vec<Asteroid>) -> Vec<i64> {
    items.iter().map(|item| item.position().y).collect()
}

#[test]
fn retain_y_over_keeps_what_is_strictly_over_the_bound_in_order() {
    let items = vec![
        Asteroid::new(Vector2::new(0, 5)),
        Asteroid::new(Vector2::new(1, -3)),
        Asteroid::new(Vector2::new(2, 0)),
        Asteroid::new(Vector2::new(3, 1)),
        Asteroid::new(Vector2::new(4, -1)),
    ];
    let kept = retain_y_over(items, 0);
    assert_eq!(heights(&kept), vec![5, 1]);
    assert_eq!(kept[0].position().x, 0);
    assert_eq!(kept[1].position().x, 3);
}

#[test]
fn retain_y_under_keeps_what_is_strictly_under_the_bound_in_order() {
    let items = vec![
        Asteroid::new(Vector2::new(0, 5)),
        Asteroid::new(Vector2::new(1, -3)),
        Asteroid::new(Vector2::new(2, 0)),
        Asteroid::new(Vector2::new(3, 1)),
        Asteroid::new(Vector2::new(4, -1)),
    ];
    let kept = retain_y_under(items, 0);
    assert_eq!(heights(&kept), vec![-3, -1]);
    assert_eq!(kept[0].position().x, 1);
    assert_eq!(kept[1].position().x, 4);
}

#[test]
fn retain_on_nothing_gives_nothing() {
    let none: Vec<Asteroid> = Vec::new();
    assert!(retain_y_over(none, 0).is_empty());
    let none: Vec<Asteroid> = Vec::new();
    assert!(retain_y_under(none, 0).is_empty());
}

#[test]
fn retain_can_drop_or_keep_everything() {
    let make = || vec![Asteroid::new(Vector2::new(0, 1)), Asteroid::new(Vector2::new(0, 2))];
    assert_eq!(retain_y_over(make(), 2).len(), 0);
    assert_eq!(retain_y_over(make(), i64::MIN).len(), 2);
    assert_eq!(retain_y_under(make(), 1).len(), 0);
    assert_eq!(retain_y_under(make(), i64::MAX).len(), 2);
}
