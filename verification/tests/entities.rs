use space_shooter::entities::{Asteroid, Color, Entity, Projectile, Ship};
use space_shooter::units::{FIRE_COOLDOWN, INITIAL_COOLDOWN, SCALE};
use space_shooter::util::Vector2;

fn ship_in_lane(width_in_pixels: u32) -> Ship {
    let mut ship = Ship::new();
    ship.set_moveable_width(width_in_pixels);
    ship
}

#[test]
fn new_ship_stands_at_the_origin_alive_and_ready() {
    let ship = Ship::new();
    assert_eq!((ship.position().x, ship.position().y), (0, 0));
    assert!(!ship.is_destroyed());
    assert_eq!(ship.cooldown(), -SCALE);
    assert_eq!(INITIAL_COOLDOWN, -1_000_000);
}

#[test]
fn ship_is_a_blue_triangle() {
    let ship = Ship::new();
    let shape = ship.renderable();
    assert_eq!(shape.color, Color { red: 20, green: 20, blue: 80, alpha: 100 });
    let corners: Vec<(i64, i64)> = shape.polygon.iter().map(|v| (v.x, v.y)).collect();
    assert_eq!(
        corners,
        vec![(-20 * SCALE, 20 * SCALE), (0, -20 * SCALE), (20 * SCALE, 20 * SCALE)]
    );
}

#[test]
fn asteroid_is_a_gray_square_of_sixteen_pixels() {
    let asteroid = Asteroid::new(Vector2::new(5, 6));
    let shape = asteroid.renderable();
    assert_eq!(shape.color, Color { red: 70, green: 70, blue: 70, alpha: 100 });
    let corners: Vec<(i64, i64)> = shape.polygon.iter().map(|v| (v.x, v.y)).collect();
    let h = 8 * SCALE;
    assert_eq!(corners, vec![(-h, -h), (-h, h), (h, h), (h, -h)]);
    let bound = shape.bounding_box();
    assert_eq!((bound.top, bound.bottom, bound.left, bound.right), (-h, h, -h, h));
}

#[test]
fn projectile_is_a_red_square_of_four_pixels() {
    let projectile = Projectile::new(Vector2::new(5, 6));
    let shape = Projectile::renderable(&projectile);
    assert_eq!(shape.color, Color { red: 100, green: 0, blue: 0, alpha: 100 });
    let corners: Vec<(i64, i64)> = shape.polygon.iter().map(|v| (v.x, v.y)).collect();
    let h = 2 * SCALE;
    assert_eq!(corners, vec![(-h, -h), (-h, h), (h, h), (h, -h)]);
    let through_the_trait = Entity::renderable(&projectile);
    assert_eq!(through_the_trait.polygon.len(), 4);
}

#[test]
fn asteroid_falls_one_hundred_pixels_a_second() {
    let mut asteroid = Asteroid::new(Vector2::new(7, -300 * SCALE));
    asteroid.simulate(1_000_000);
    assert_eq!((asteroid.position().x, asteroid.position().y), (7, -200 * SCALE));
    asteroid.simulate(1);
    assert_eq!(asteroid.position().y, -200 * SCALE + 100);
    asteroid.simulate(0);
    assert_eq!(asteroid.position().y, -200 * SCALE + 100);
}

#[test]
fn projectile_rises_one_thousand_pixels_a_second() {
    let mut projectile = Projectile::new(Vector2::new(-3, 0));
    projectile.simulate(1_000_000);
    assert_eq!((projectile.position().x, projectile.position().y), (-3, -1000 * SCALE));
    projectile.simulate(1);
    assert_eq!(projectile.position().y, -1000 * SCALE - 1000);
    projectile.simulate(0);
    assert_eq!(projectile.position().y, -1000 * SCALE - 1000);
}

#[test]
fn simulate_takes_the_longest_step() {
    let mut asteroid = Asteroid::new(Vector2::new(0, 0));
    asteroid.simulate(u32::MAX);
    assert_eq!(asteroid.position().y, 429_496_729_500);
    let mut projectile = Projectile::new(Vector2::new(0, 0));
    projectile.simulate(u32::MAX);
    assert_eq!(projectile.position().y, -4_294_967_295_000);
}

#[test]
fn set_moveable_width_is_half_the_viewport() {
    let mut ship = ship_in_lane(640);
    ship.thrust_right(true);
    ship.move_ship(60 * 1_000_000);
    assert_eq!(ship.position().x, 320 * SCALE);
    let mut ship = ship_in_lane(641);
    ship.thrust_right(true);
    ship.move_ship(60 * 1_000_000);
    assert_eq!(ship.position().x, 320_500_000);
}

#[test]
fn ship_under_right_thrust_is_held_at_the_right_edge() {
    // Lane of 100 pixels to either side, one second of right thrust: 200 pixels
    // of travel, held at 100.
    let mut ship = ship_in_lane(200);
    ship.thrust_right(true);
    ship.move_ship(1_000_000);
    assert_eq!(ship.position().x, 100 * SCALE);
    assert_eq!(ship.position().y, 0);
}

#[test]
fn ship_moves_two_hundred_pixels_a_second() {
    let mut ship = ship_in_lane(2000);
    ship.thrust_right(true);
    ship.move_ship(1_000_000);
    assert_eq!(ship.position().x, 200 * SCALE);
    ship.move_ship(1);
    assert_eq!(ship.position().x, 200 * SCALE + 200);
    ship.thrust_right(false);
    ship.thrust_left(true);
    ship.move_ship(500_000);
    assert_eq!(ship.position().x, 100 * SCALE + 200);
}

#[test]
fn ship_without_thrust_stays() {
    let mut ship = ship_in_lane(200);
    ship.move_ship(1_000_000);
    assert_eq!(ship.position().x, 0);
    ship.thrust_right(true);
    ship.move_ship(0);
    assert_eq!(ship.position().x, 0);
}

#[test]
fn thrust_setters_can_be_repeated_and_released() {
    let mut ship = ship_in_lane(2000);
    ship.thrust_right(true);
    ship.thrust_right(true);
    ship.move_ship(1000);
    assert_eq!(ship.position().x, 200_000);
    ship.thrust_right(false);
    ship.thrust_right(false);
    ship.move_ship(1000);
    assert_eq!(ship.position().x, 200_000);
}

#[test]
fn left_thrust_overshoots_the_left_edge_within_one_step() {
    // The ship is held to the left edge before left thrust is applied, not after.
    let mut ship = ship_in_lane(200);
    ship.thrust_left(true);
    ship.move_ship(1_000_000);
    assert_eq!(ship.position().x, -200 * SCALE);
    // The next step first brings it back to the edge, then applies thrust again.
    ship.move_ship(100_000);
    assert_eq!(ship.position().x, -120 * SCALE);
    ship.thrust_left(false);
    ship.move_ship(100_000);
    assert_eq!(ship.position().x, -100 * SCALE);
}

#[test]
fn both_thrusts_cancel_inside_the_lane() {
    let mut ship = ship_in_lane(2000);
    ship.thrust_left(true);
    ship.thrust_right(true);
    ship.move_ship(1_000_000);
    assert_eq!(ship.position().x, 0);
}

#[test]
fn both_thrusts_at_the_right_edge_leave_the_ship_there() {
    // Right thrust is not held to the right edge before left thrust is applied.
    let mut ship = ship_in_lane(200);
    ship.thrust_right(true);
    ship.move_ship(1_000_000);
    assert_eq!(ship.position().x, 100 * SCALE);
    ship.thrust_left(true);
    ship.move_ship(1_000_000);
    assert_eq!(ship.position().x, 100 * SCALE);
    ship.thrust_right(false);
    ship.move_ship(250_000);
    assert_eq!(ship.position().x, 50 * SCALE);
}

#[test]
fn both_thrusts_left_of_the_lane_start_from_its_left_edge() {
    let mut ship = ship_in_lane(200);
    ship.thrust_left(true);
    ship.move_ship(1_000_000);
    assert_eq!(ship.position().x, -200 * SCALE);
    // Right thrust brings it to -180, still left of the lane, so it is held at
    // -100; left thrust then takes 20 pixels off.
    ship.thrust_right(true);
    ship.move_ship(100_000);
    assert_eq!(ship.position().x, -120 * SCALE);
    // Right thrust alone: -120 + 10 is still left of the edge, so it is held at -100.
    ship.thrust_left(false);
    ship.move_ship(50_000);
    assert_eq!(ship.position().x, -100 * SCALE);
}

#[test]
fn ship_never_passes_the_right_edge_over_many_moves() {
    let mut ship = ship_in_lane(300);
    let steps: [u32; 8] = [0, 1, 16_667, 1_000_000, 5, 750_000, u32::MAX, 3];
    for (turn, dt) in steps.iter().enumerate() {
        ship.thrust_right(turn % 2 == 0);
        ship.thrust_left(turn % 3 == 0);
        ship.move_ship(*dt);
        assert!(ship.position().x <= 150 * SCALE);
        assert!(ship.position().x >= -150 * SCALE - 200 * (*dt as i64));
    }
}

#[test]
fn ship_without_left_thrust_never_passes_the_left_edge() {
    let mut ship = ship_in_lane(300);
    ship.thrust_left(true);
    ship.move_ship(u32::MAX);
    assert!(ship.position().x < -150 * SCALE);
    ship.thrust_left(false);
    for dt in [0u32, 1, 1_000_000, u32::MAX] {
        ship.move_ship(dt);
        assert!(ship.position().x >= -150 * SCALE);
        assert!(ship.position().x <= 150 * SCALE);
    }
}

#[test]
fn narrowing_the_lane_holds_the_ship_at_the_next_move() {
    let mut ship = ship_in_lane(1000);
    ship.thrust_right(true);
    ship.move_ship(2_000_000);
    assert_eq!(ship.position().x, 400 * SCALE);
    ship.thrust_right(false);
    ship.set_moveable_width(200);
    assert_eq!(ship.position().x, 400 * SCALE);
    ship.move_ship(0);
    assert_eq!(ship.position().x, 100 * SCALE);
}

#[test]
fn first_shot_is_immediate_and_winds_the_cooldown_up() {
    let mut ship = Ship::new();
    ship.fire(true);
    assert!(ship.fire_projectile(0));
    assert_eq!(ship.cooldown(), 600_000);
    assert_eq!(FIRE_COOLDOWN, 600_000);
    assert!(!ship.fire_projectile(0));
    assert_eq!(ship.cooldown(), 600_000);
}

#[test]
fn gun_shoots_again_once_the_cooldown_is_below_zero() {
    let mut ship = Ship::new();
    ship.fire(true);
    assert!(ship.fire_projectile(16_667));
    assert!(!ship.fire_projectile(599_999));
    assert_eq!(ship.cooldown(), 1);
    assert!(!ship.fire_projectile(1));
    assert_eq!(ship.cooldown(), 0);
    assert!(ship.fire_projectile(1));
    assert_eq!(ship.cooldown(), 600_000);
}

#[test]
fn cooldown_runs_down_while_fire_is_not_held() {
    let mut ship = Ship::new();
    assert!(!ship.fire_projectile(250_000));
    assert_eq!(ship.cooldown(), -1_250_000);
    assert!(!ship.fire_projectile(u32::MAX));
    assert_eq!(ship.cooldown(), -1_250_000 - 4_294_967_295);
    ship.fire(true);
    assert!(ship.fire_projectile(0));
    ship.fire(false);
    assert!(!ship.fire_projectile(700_000));
    assert_eq!(ship.cooldown(), -100_000);
}

#[test]
fn destroy_is_final() {
    let mut ship = Ship::new();
    ship.destroy();
    assert!(ship.is_destroyed());
    ship.destroy();
    ship.fire(true);
    ship.thrust_left(false);
    ship.set_moveable_width(10);
    ship.move_ship(5);
    assert!(ship.is_destroyed());
}
