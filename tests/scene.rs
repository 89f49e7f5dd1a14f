use platformer::geometry::{cuboid_rect, Direction, GeometryError, Point, Rect, Shape};
use platformer::input::{HeldKeys, Intent, KEY_A, KEY_D, KEY_SPACE};
use platformer::physics::{Physics, GRAVITY, HEIGHT, WIDTH};
use platformer::player::{MoveCommand, Player, HORIZONTAL_SPEED, JUMP_IMPULSE, SIZE};
use platformer::ray::{intersects, Ray};
use platformer::world::{Body, BodyHandle, BodyRole, Material, World, WorldError};

fn pt(x: i32, y: i32) -> Point {
    Point { x, y }
}

fn level_material() -> Material {
    Material { restitution_milli: 300, friction_milli: 600 }
}

fn level_box(hw: i32, hh: i32, x: i32, y: i32) -> Body {
    Body {
        role: BodyRole::Static,
        shape: Shape::Cuboid { half_width: hw, half_height: hh },
        position: pt(x, y),
        density_milli: 0,
        material: level_material(),
    }
}

#[test]
fn shapes_refuse_non_positive_sizes() {
    assert_eq!(Shape::ball(3), Ok(Shape::Ball { radius: 3 }));
    assert_eq!(Shape::ball(0), Err(GeometryError::NonPositiveSize));
    assert_eq!(Shape::ball(-4), Err(GeometryError::NonPositiveSize));
    assert_eq!(
        Shape::cuboid(2, 5),
        Ok(Shape::Cuboid { half_width: 2, half_height: 5 })
    );
    assert_eq!(Shape::cuboid(0, 5), Err(GeometryError::NonPositiveSize));
    assert_eq!(Shape::cuboid(5, -1), Err(GeometryError::NonPositiveSize));
}

#[test]
fn box_rect_is_corner_anchored() {
    let r = cuboid_rect(pt(100, 200), 10, 5);
    assert_eq!(r, Rect { x: 90, y: 195, width: 20, height: 10 });
    let floor = cuboid_rect(pt(300, 597), 300, 1);
    assert_eq!(floor, Rect { x: 0, y: 596, width: 600, height: 2 });
}

#[test]
fn box_rect_at_extreme_coordinates() {
    let r = cuboid_rect(pt(i32::MIN, i32::MAX), i32::MAX, i32::MAX);
    assert_eq!(r.x, i32::MIN as i64 - i32::MAX as i64);
    assert_eq!(r.y, 0);
    assert_eq!(r.width, 2 * i32::MAX as i64);
    assert_eq!(r.height, 2 * i32::MAX as i64);
}

#[test]
fn ray_at_box_center_hits() {
    let ray = Ray { origin: pt(0, 0), dir: Direction { x: 10, y: 7 } };
    assert!(intersects(&ray, pt(10, 7), 1, 1));
    let far = Ray { origin: pt(-500, 40), dir: Direction { x: 800, y: -40 } };
    assert!(intersects(&far, pt(300, 0), 2, 2));
}

#[test]
fn ray_pointing_away_misses() {
    let ray = Ray { origin: pt(0, 0), dir: Direction { x: -1, y: 0 } };
    assert!(!intersects(&ray, pt(10, 0), 2, 2));
    let up = Ray { origin: pt(300, 300), dir: Direction { x: 0, y: -1 } };
    assert!(!intersects(&up, pt(300, 597), 300, 1));
}

#[test]
fn ray_passing_beside_box_misses() {
    let ray = Ray { origin: pt(0, 0), dir: Direction { x: 10, y: 1 } };
    assert!(!intersects(&ray, pt(10, 5), 3, 3));
    assert!(intersects(&ray, pt(10, 4), 3, 3));
}

#[test]
fn ray_touching_corner_hits() {
    let ray = Ray { origin: pt(0, 0), dir: Direction { x: 1, y: 1 } };
    assert!(intersects(&ray, pt(12, 8), 2, 2));
    assert!(!intersects(&ray, pt(13, 8), 2, 2));
}

#[test]
fn ray_starting_inside_box_hits() {
    let ray = Ray { origin: pt(5, 5), dir: Direction { x: -3, y: 1 } };
    assert!(intersects(&ray, pt(6, 4), 2, 2));
    let still = Ray { origin: pt(5, 5), dir: Direction { x: 0, y: 0 } };
    assert!(intersects(&still, pt(6, 4), 2, 2));
    assert!(!intersects(&still, pt(9, 4), 2, 2));
}

#[test]
fn ray_with_huge_coordinates() {
    let ray = Ray {
        origin: pt(i32::MIN, i32::MIN),
        dir: Direction { x: i64::MAX, y: i64::MAX },
    };
    assert!(intersects(&ray, pt(i32::MAX, i32::MAX), 1, 1));
    assert!(!intersects(&ray, pt(i32::MAX, i32::MIN), 1, 1));
}

#[test]
fn direction_of_identical_points_is_unit() {
    let p = pt(42, -7);
    let d = Physics::normal_difference(p, p);
    assert_eq!(d, Direction { x: 1, y: 0 });
    assert_eq!(d.x * d.x + d.y * d.y, 1);
}

#[test]
fn direction_points_from_a_to_b() {
    let d = Physics::normal_difference(pt(300, 300), pt(100, 350));
    assert_eq!(d, Direction { x: -200, y: 50 });
}

#[test]
fn move_without_jump_sets_horizontal_velocity_only() {
    let player = Player { body: BodyHandle(5) };
    for dx in [-1, 0, 1, 3] {
        for overlaps in [0usize, 2] {
            let c = player.mov(dx, false, overlaps);
            assert_eq!(c.horizontal_velocity, HORIZONTAL_SPEED * dx as i64);
            assert_eq!(c.vertical_impulse, 0);
        }
    }
    assert_eq!(player.mov(1, false, 0).horizontal_velocity, 100);
    assert_eq!(player.mov(-1, false, 0).horizontal_velocity, -100);
}

#[test]
fn jump_is_gated_by_ground_sensor() {
    let player = Player { body: BodyHandle(5) };
    assert!(!player.can_jump(0));
    assert!(player.can_jump(1));
    assert_eq!(
        player.mov(0, true, 0),
        MoveCommand { vertical_impulse: 0, horizontal_velocity: 0 }
    );
    assert_eq!(
        player.mov(0, true, 1),
        MoveCommand { vertical_impulse: -JUMP_IMPULSE, horizontal_velocity: 0 }
    );
}

#[test]
fn jump_from_floor_is_upward_by_fixed_impulse() {
    let physics = Physics::new();
    let c = physics.update(0, true, 1);
    assert_eq!(c.vertical_impulse, -700);
    assert!(c.vertical_impulse < 0);
    let again = physics.update(0, true, 1);
    assert_eq!(again.vertical_impulse, -700);
}

#[test]
fn player_square_is_centred() {
    let player = Player { body: BodyHandle(0) };
    let r = player.draw(pt(300, 300));
    assert_eq!(r, Rect { x: 295, y: 295, width: SIZE as i64, height: SIZE as i64 });
}

#[test]
fn held_keys_fold_into_intent() {
    let mut keys = HeldKeys::new();
    assert_eq!(keys.intent(), Intent { dx: 0, jump: false });
    keys.handle_button(KEY_A, true);
    assert_eq!(keys.intent(), Intent { dx: -1, jump: false });
    keys.handle_button(KEY_D, true);
    assert_eq!(keys.intent(), Intent { dx: 0, jump: false });
    keys.handle_button(KEY_A, false);
    keys.handle_button(KEY_SPACE, true);
    keys.handle_button(0x71, true);
    assert_eq!(keys.intent(), Intent { dx: 1, jump: true });
    assert!(keys.is_held(0x71));
    keys.handle_button(KEY_SPACE, false);
    keys.handle_button(KEY_SPACE, false);
    assert_eq!(keys.intent(), Intent { dx: 1, jump: false });
}

#[test]
fn default_scene_layout() {
    let physics = Physics::new();
    let world = physics.world();
    assert_eq!(world.gravity(), Direction { x: 0, y: GRAVITY });
    assert_eq!(GRAVITY, 500);
    let expected = vec![
        level_box(300, 1, 300, 3),
        level_box(1, 300, 597, 300),
        level_box(300, 1, 300, 597),
        level_box(2, 300, 5, 300),
        level_box(75, 10, 300, 480),
        Body {
            role: BodyRole::DynamicPlayer,
            shape: Shape::Ball { radius: 10 },
            position: pt(WIDTH / 2, HEIGHT / 2),
            density_milli: 100,
            material: Material { restitution_milli: 300, friction_milli: 1200 },
        },
    ];
    assert_eq!(world.bodies(), &expected);
    assert_eq!(physics.player(), Player { body: BodyHandle(5) });
    assert_eq!(world.player(), Some(BodyHandle(5)));
    let sensor = world.sensor().unwrap();
    assert_eq!(sensor.shape, Shape::Ball { radius: 100 });
    assert_eq!(sensor.attached_to, BodyHandle(5));
    assert_eq!(sensor.offset, pt(0, 0));
}

#[test]
fn custom_size_and_refused_size() {
    let p = Physics::with_size(800, 400).unwrap();
    let bodies = p.world().bodies();
    assert_eq!(bodies[1], level_box(1, 200, 797, 200));
    assert_eq!(bodies[4], level_box(100, 10, 400, 320));
    assert_eq!(bodies[5].position, pt(400, 200));
    assert_eq!(Physics::with_size(7, 400).err(), Some(WorldError::InvalidShape));
    assert_eq!(Physics::with_size(600, 1).err(), Some(WorldError::InvalidShape));
    assert!(Physics::with_size(8, 2).is_ok());
}

#[test]
fn static_bodies_refused_leave_world_unchanged() {
    let mut world = World::new(Direction { x: 0, y: 9 });
    assert_eq!(
        Physics::add_static_bodies(&mut world, 0, 600),
        Err(WorldError::InvalidShape)
    );
    assert!(world.bodies().is_empty());
    assert_eq!(Physics::add_static_bodies(&mut world, 600, 600), Ok(()));
    assert_eq!(world.bodies().len(), 5);
}

#[test]
fn second_player_or_sensor_is_refused() {
    let mut world = World::new(Direction { x: 0, y: 500 });
    let player = Physics::add_player(&mut world, pt(10, 20)).unwrap();
    assert_eq!(player.body, BodyHandle(0));
    assert_eq!(
        Physics::add_player(&mut world, pt(10, 20)),
        Err(WorldError::PlayerExists)
    );
    let mut other = World::new(Direction { x: 0, y: 500 });
    let h = other
        .add_dynamic_body(Shape::Ball { radius: 1 }, 5, level_material(), pt(0, 0), false)
        .unwrap();
    assert_eq!(other.add_sensor(Shape::Ball { radius: 3 }, h, pt(0, 0)), Ok(()));
    assert_eq!(
        Physics::add_player(&mut other, pt(1, 1)),
        Err(WorldError::SensorExists)
    );
    assert_eq!(other.bodies().len(), 1);
}

#[test]
fn world_errors() {
    let mut world = World::new(Direction { x: 0, y: 500 });
    assert_eq!(
        world.add_static_body(Shape::Cuboid { half_width: 0, half_height: 1 }, level_material(), pt(0, 0)),
        Err(WorldError::InvalidShape)
    );
    let s = world
        .add_static_body(Shape::Cuboid { half_width: 4, half_height: 1 }, level_material(), pt(0, 0))
        .unwrap();
    assert_eq!(s, BodyHandle(0));
    assert_eq!(
        world.add_dynamic_body(Shape::Ball { radius: -1 }, 1, level_material(), pt(0, 0), true),
        Err(WorldError::InvalidShape)
    );
    let p = world
        .add_dynamic_body(Shape::Ball { radius: 1 }, 1, level_material(), pt(0, 0), true)
        .unwrap();
    assert_eq!(p, BodyHandle(1));
    assert_eq!(world.bodies()[1].role, BodyRole::DynamicPlayer);
    assert_eq!(
        world.add_dynamic_body(Shape::Ball { radius: 1 }, 1, level_material(), pt(0, 0), true),
        Err(WorldError::PlayerExists)
    );
    let o = world
        .add_dynamic_body(Shape::Ball { radius: 1 }, 1, level_material(), pt(0, 0), false)
        .unwrap();
    assert_eq!(world.bodies()[o.0].role, BodyRole::DynamicOther);
    assert_eq!(
        world.add_sensor(Shape::Ball { radius: 0 }, p, pt(0, 0)),
        Err(WorldError::InvalidShape)
    );
    assert_eq!(
        world.add_sensor(Shape::Ball { radius: 2 }, BodyHandle(9), pt(0, 0)),
        Err(WorldError::InvalidHandle)
    );
    assert_eq!(world.add_sensor(Shape::Ball { radius: 2 }, p, pt(0, 1)), Ok(()));
    assert_eq!(
        world.add_sensor(Shape::Ball { radius: 2 }, p, pt(0, 1)),
        Err(WorldError::SensorExists)
    );
    assert_eq!(world.body(BodyHandle(3)).err(), Some(WorldError::InvalidHandle));
    assert_eq!(world.body(BodyHandle(0)).unwrap().position, pt(0, 0));
}

#[test]
fn borrow_handle_rejects_stale_handles() {
    let physics = Physics::new();
    assert_eq!(physics.borrow_handle(BodyHandle(2)).unwrap(), &level_box(300, 1, 300, 597));
    assert_eq!(
        physics.borrow_handle(BodyHandle(6)).err(),
        Some(WorldError::InvalidHandle)
    );
}

#[test]
fn aim_down_highlights_floor_and_platform() {
    let physics = Physics::new();
    let rects = physics.draw_rays(pt(300, 300), pt(300, 600));
    assert_eq!(
        rects,
        vec![
            Rect { x: 0, y: 596, width: 600, height: 2 },
            Rect { x: 225, y: 470, width: 150, height: 20 },
        ]
    );
}

#[test]
fn aim_up_and_sideways() {
    let physics = Physics::new();
    let up = physics.draw_rays(pt(300, 300), pt(300, 100));
    assert_eq!(up, vec![Rect { x: 0, y: 2, width: 600, height: 2 }]);
    let left = physics.draw_rays(pt(300, 300), pt(100, 300));
    assert_eq!(left, vec![Rect { x: 3, y: 0, width: 4, height: 600 }]);
}

#[test]
fn aim_at_own_position_uses_fallback() {
    let physics = Physics::new();
    let rects = physics.draw_rays(pt(300, 300), pt(300, 300));
    assert_eq!(rects, vec![Rect { x: 596, y: 0, width: 2, height: 600 }]);
}

#[test]
fn frame_draws_player_then_overlay() {
    let physics = Physics::new();
    let frame = physics.draw(pt(300, 300), pt(300, 0));
    assert_eq!(frame.player, Rect { x: 295, y: 295, width: 10, height: 10 });
    assert_eq!(frame.rays, vec![Rect { x: 0, y: 2, width: 600, height: 2 }]);
}

#[test]
fn shape_validity() {
    assert!(Shape::Ball { radius: 1 }.is_valid());
    assert!(!Shape::Ball { radius: 0 }.is_valid());
    assert!(Shape::Cuboid { half_width: 1, half_height: 1 }.is_valid());
    assert!(!Shape::Cuboid { half_width: 1, half_height: 0 }.is_valid());
    assert!(!Shape::Cuboid { half_width: -3, half_height: 2 }.is_valid());
}
