//! The scene as a whole: the level that bounds the play area, the player
//! with its ground sensor, and the aim overlay drawn each frame.
use vstd::prelude::*;

use crate::geometry::{cuboid_rect, cuboid_rect_spec, Direction, Point, Rect, Shape};
use crate::player::{move_spec, player_square, MoveCommand, Player, SIZE};
use crate::ray::{hits_at, intersects, ray_meets_box, Ray};
use crate::world::{Body, BodyHandle, BodyRole, Material, Sensor, World, WorldError};

verus! {

/// Width and height of the play area, in pixels.
pub const WIDTH: i32 = 600;
pub const HEIGHT: i32 = 600;

/// Downward gravity, in pixels per second squared.
pub const GRAVITY: i64 = 500;

/// Contact parameters of the level geometry, in thousandths.
pub const LEVEL_RESTITUTION: u32 = 300;
pub const LEVEL_FRICTION: u32 = 600;

/// Density and contact parameters of the player body, in thousandths.
pub const PLAYER_DENSITY: u32 = 100;
pub const PLAYER_RESTITUTION: u32 = 300;
pub const PLAYER_FRICTION: u32 = 1200;

/// Radius of the ground sensor, centred on the player body.
pub const SENSOR_RADIUS: i32 = 100;

/// Smallest play area whose geometry has positive size everywhere.
pub const MIN_WIDTH: i32 = 8;
pub const MIN_HEIGHT: i32 = 2;

pub open spec fn level_body(half_width: i32, half_height: i32, x: i32, y: i32) -> Body {
    Body {
        role: BodyRole::Static,
        shape: Shape::Cuboid { half_width, half_height },
        position: Point { x, y },
        density_milli: 0,
        material: Material { restitution_milli: LEVEL_RESTITUTION, friction_milli: LEVEL_FRICTION },
    }
}

/// The level of a `width` by `height` play area, in the order it is built:
/// ceiling, right wall, floor, left wall, and a floating platform.
pub open spec fn level_layout(width: int, height: int) -> Seq<Body> {
    seq![
        level_body((width / 2) as i32, 1, (width / 2) as i32, 3),
        level_body(1, (height / 2) as i32, (width - 3) as i32, (height / 2) as i32),
        level_body((width / 2) as i32, 1, (width / 2) as i32, (height - 3) as i32),
        level_body(2, (height / 2) as i32, 5, (height / 2) as i32),
        level_body((width / 8) as i32, 10, (width / 2) as i32, (height * 4 / 5) as i32),
    ]
}

/// The player body, a ball dropped at `start`.
pub open spec fn player_body(start: Point) -> Body {
    Body {
        role: BodyRole::DynamicPlayer,
        shape: Shape::Ball { radius: SIZE },
        position: start,
        density_milli: PLAYER_DENSITY,
        material: Material {
            restitution_milli: PLAYER_RESTITUTION,
            friction_milli: PLAYER_FRICTION,
        },
    }
}

/// The ground sensor: a ball centred on the player body.
pub open spec fn player_sensor(body: BodyHandle) -> Sensor {
    Sensor {
        shape: Shape::Ball { radius: SENSOR_RADIUS },
        attached_to: body,
        offset: Point { x: 0, y: 0 },
    }
}

/// Where the player starts: the centre of the play area.
pub open spec fn player_start(width: int, height: int) -> Point {
    Point { x: (width / 2) as i32, y: (height / 2) as i32 }
}

/// Whether a play area of this size gets geometry of positive size.
pub open spec fn size_is_valid(width: int, height: int) -> bool {
    width >= MIN_WIDTH && height >= MIN_HEIGHT
}

/// The direction from `a` towards `b`; straight right when the two are the
/// same point.
pub open spec fn normal_difference_spec(a: Point, b: Point) -> Direction {
    if a == b {
        Direction { x: 1, y: 0 }
    } else {
        Direction { x: (b.x - a.x) as i64, y: (b.y - a.y) as i64 }
    }
}

/// The rectangles that the aim overlay draws: one for each static box that
/// the ray meets, in the order of the bodies.
pub open spec fn ray_rects(bodies: Seq<Body>, ray: Ray) -> Seq<Rect>
    decreases bodies.len(),
{
    if bodies.len() == 0 {
        seq![]
    } else {
        let rest = ray_rects(bodies.drop_last(), ray);
        let b = bodies.last();
        match b.shape {
            Shape::Cuboid { half_width, half_height } => {
                if b.role == BodyRole::Static && ray_meets_box(
                    ray,
                    b.position,
                    half_width as int,
                    half_height as int,
                ) {
                    rest.push(cuboid_rect_spec(b.position, half_width as int, half_height as int))
                } else {
                    rest
                }
            },
            Shape::Ball { .. } => rest,
        }
    }
}

/// The aim ray of a frame: from the player towards the cursor.
pub open spec fn aim_ray(player_position: Point, cursor: Point) -> Ray {
    Ray { origin: player_position, dir: normal_difference_spec(player_position, cursor) }
}

/// The aim ray from the player towards a box's centre meets that box,
/// wherever the player stands (even on the centre itself).
pub proof fn lemma_aim_at_center_meets_box(player_position: Point, center: Point, hw: int, hh: int)
    requires
        hw >= 0,
        hh >= 0,
    ensures
        ray_meets_box(aim_ray(player_position, center), center, hw, hh),
{
    let ray = aim_ray(player_position, center);
    if player_position == center {
        assert(hits_at(ray, center, hw, hh, 0, 1));
    } else {
        assert(hits_at(ray, center, hw, hh, 1, 1));
    }
}

/// What a frame draws over the cleared screen: the player's square, then
/// the aim overlay.
#[derive(Debug)]
pub struct Frame {
    pub player: Rect,
    pub rays: Vec<Rect>,
}

pub struct Physics {
    world: World,
    player: Player,
}

impl Physics {
    pub closed spec fn world_spec(&self) -> World {
        self.world
    }

    pub closed spec fn player_spec(&self) -> Player {
        self.player
    }

    /// The world is well formed, its player is this player, and the ground
    /// sensor is attached to the player body.
    pub open spec fn wf(&self) -> bool {
        &&& self.world_spec().wf()
        &&& self.world_spec().player_spec() == Some(self.player_spec().body)
        &&& self.world_spec().sensor_spec() == Some(player_sensor(self.player_spec().body))
    }

    /// The scene of the default play area: gravity, level and player.
    pub fn new() -> (r: Physics)
        ensures
            r.wf(),
            r.world_spec().gravity_spec() == (Direction { x: 0, y: GRAVITY }),
            r.world_spec().bodies_spec() == level_layout(WIDTH as int, HEIGHT as int).push(
                player_body(player_start(WIDTH as int, HEIGHT as int)),
            ),
            r.player_spec() == (Player { body: BodyHandle(5) }),
    {
        let r = Physics::with_size(WIDTH, HEIGHT);
        match r {
            Ok(p) => p,
            Err(_) => {
                proof {
                    assert(false);
                }
                Physics {
                    world: World::new(Direction { x: 0, y: GRAVITY }),
                    player: Player { body: BodyHandle(0) },
                }
            },
        }
    }

    /// The scene of a `width` by `height` play area; a size that would give
    /// some piece of the level no extent is refused.
    pub fn with_size(width: i32, height: i32) -> (r: Result<Physics, WorldError>)
        ensures
            !size_is_valid(width as int, height as int) ==> r == Err::<Physics, WorldError>(
                WorldError::InvalidShape,
            ),
            size_is_valid(width as int, height as int) ==> r is Ok,
            r is Ok ==> {
                let p = r->Ok_0;
                &&& p.wf()
                &&& p.world_spec().gravity_spec() == (Direction { x: 0, y: GRAVITY })
                &&& p.world_spec().bodies_spec() == level_layout(width as int, height as int).push(
                    player_body(player_start(width as int, height as int)),
                )
                &&& p.player_spec() == (Player { body: BodyHandle(5) })
            },
    {
        let mut world = World::new(Direction { x: 0, y: GRAVITY });
        match Physics::add_static_bodies(&mut world, width, height) {
            Ok(()) => {},
            Err(e) => {
                return Err(e);
            },
        }
        match Physics::add_player(&mut world, Point { x: width / 2, y: height / 2 }) {
            Ok(player) => Ok(Physics { world, player }),
            Err(e) => {
                proof {
                    assert(false);
                }
                Err(e)
            },
        }
    }

    /// Adds the level of a `width` by `height` play area: a ceiling, two
    /// walls and a floor that bound it, and a floating platform. A size that
    /// would give some piece no extent is refused, and nothing is added.
    pub fn add_static_bodies(world: &mut World, width: i32, height: i32) -> (r: Result<
        (),
        WorldError,
    >)
        requires
            old(world).wf(),
        ensures
            final(world).wf(),
            final(world).gravity_spec() == old(world).gravity_spec(),
            final(world).player_spec() == old(world).player_spec(),
            final(world).sensor_spec() == old(world).sensor_spec(),
            !size_is_valid(width as int, height as int) ==> r == Err::<(), WorldError>(
                WorldError::InvalidShape,
            ) && final(world).bodies_spec() == old(world).bodies_spec(),
            size_is_valid(width as int, height as int) ==> r == Ok::<(), WorldError>(())
                && final(world).bodies_spec() == old(world).bodies_spec() + level_layout(
                width as int,
                height as int,
            ),
    {
        if width < MIN_WIDTH || height < MIN_HEIGHT {
            return Err(WorldError::InvalidShape);
        }
        let material = Material {
            restitution_milli: LEVEL_RESTITUTION,
            friction_milli: LEVEL_FRICTION,
        };
        let ghost before = world.bodies_spec();
        let platform_y: i32 = (height as i64 * 4 / 5) as i32;
        let pieces: [(i32, i32, i32, i32); 5] = [
            (width / 2, 1, width / 2, 3),
            (1, height / 2, width - 3, height / 2),
            (width / 2, 1, width / 2, height - 3),
            (2, height / 2, 5, height / 2),
            (width / 8, 10, width / 2, platform_y),
        ];
        let ghost layout = level_layout(width as int, height as int);
        let mut i: usize = 0;
        while i < 5
            invariant
                0 <= i <= 5,
                size_is_valid(width as int, height as int),
                material == (Material {
                    restitution_milli: LEVEL_RESTITUTION,
                    friction_milli: LEVEL_FRICTION,
                }),
                layout == level_layout(width as int, height as int),
                forall|k: int|
                    0 <= k < 5 ==> {
                        let (hw, hh, x, y) = #[trigger] pieces@[k];
                        &&& hw > 0
                        &&& hh > 0
                        &&& layout[k] == level_body(hw, hh, x, y)
                    },
                world.wf(),
                world.gravity_spec() == old(world).gravity_spec(),
                world.player_spec() == old(world).player_spec(),
                world.sensor_spec() == old(world).sensor_spec(),
                world.bodies_spec() == before + layout.subrange(0, i as int),
            decreases 5 - i,
        {
            let (hw, hh, x, y) = pieces[i];
            let shape = Shape::Cuboid { half_width: hw, half_height: hh };
            let _ = world.add_static_body(shape, material, Point { x, y });
            assert(before + layout.subrange(0, i as int + 1) =~= (before + layout.subrange(
                0,
                i as int,
            )).push(layout[i as int]));
            i += 1;
        }
        assert(layout.subrange(0, 5) =~= layout);
        Ok(())
    }

    /// Adds the player body at `start`, with its ground sensor. Refused when
    /// the world has a player or a sensor already.
    pub fn add_player(world: &mut World, start: Point) -> (r: Result<
        Player,
        WorldError,
    >)
        requires
            old(world).wf(),
        ensures
            final(world).wf(),
            final(world).gravity_spec() == old(world).gravity_spec(),
            old(world).player_spec() is Some ==> r == Err::<Player, WorldError>(
                WorldError::PlayerExists,
            ),
            old(world).player_spec() is None && old(world).sensor_spec() is Some ==> r == Err::<
                Player,
                WorldError,
            >(WorldError::SensorExists),
            r is Err ==> final(world).bodies_spec() == old(world).bodies_spec()
                && final(world).player_spec() == old(world).player_spec()
                && final(world).sensor_spec() == old(world).sensor_spec(),
            old(world).player_spec() is None && old(world).sensor_spec() is None ==> {
                let h = BodyHandle(old(world).bodies_spec().len() as usize);
                &&& r == Ok::<Player, WorldError>(Player { body: h })
                &&& final(world).bodies_spec() == old(world).bodies_spec().push(
                    player_body(start),
                )
                &&& final(world).player_spec() == Some(h)
                &&& final(world).sensor_spec() == Some(player_sensor(h))
            },
    {
        if world.player().is_some() {
            return Err(WorldError::PlayerExists);
        }
        if world.sensor().is_some() {
            return Err(WorldError::SensorExists);
        }
        let material = Material {
            restitution_milli: PLAYER_RESTITUTION,
            friction_milli: PLAYER_FRICTION,
        };
        let body = match world.add_dynamic_body(
            Shape::Ball { radius: SIZE },
            PLAYER_DENSITY,
            material,
            start,
            true,
        ) {
            Ok(h) => h,
            Err(e) => {
                proof {
                    assert(false);
                }
                return Err(e);
            },
        };
        match world.add_sensor(Shape::Ball { radius: SENSOR_RADIUS }, body, Point { x: 0, y: 0 }) {
            Ok(()) => {},
            Err(e) => {
                proof {
                    assert(false);
                }
                return Err(e);
            },
        }
        Ok(Player { body })
    }

    /// This frame's command for the player body, from the intent and from
    /// how many bodies the ground sensor overlaps. The world is stepped after
    /// the command has been applied.
    pub fn update(&self, dx: i32, jump: bool, sensor_overlaps: usize) -> (r: MoveCommand)
        ensures
            r == move_spec(dx as int, jump, sensor_overlaps as nat),
    {
        self.player.mov(dx, jump, sensor_overlaps)
    }

    /// The direction from `a` towards `b`, which is never zero: when the two
    /// points coincide it is the unit vector pointing right.
    pub fn normal_difference(a: Point, b: Point) -> (r: Direction)
        ensures
            r == normal_difference_spec(a, b),
            r.x != 0 || r.y != 0,
            a == b ==> r.x * r.x + r.y * r.y == 1,
    {
        if a == b {
            Direction { x: 1, y: 0 }
        } else {
            Direction { x: b.x as i64 - a.x as i64, y: b.y as i64 - a.y as i64 }
        }
    }

    /// The aim overlay: casts a ray from the player towards the cursor and
    /// returns, in the order of the bodies, the rectangle of every static box
    /// that it meets. Every box is tested; none stops the ray.
    pub fn draw_rays(&self, player_position: Point, cursor: Point) -> (r: Vec<Rect>)
        requires
            self.wf(),
        ensures
            r@ == ray_rects(self.world_spec().bodies_spec(), aim_ray(player_position, cursor)),
    {
        let ray = Ray {
            origin: player_position,
            dir: Physics::normal_difference(player_position, cursor),
        };
        let bodies = self.world.bodies();
        let mut rects: Vec<Rect> = Vec::new();
        let mut i: usize = 0;
        while i < bodies.len()
            invariant
                0 <= i <= bodies@.len(),
                bodies@ == self.world_spec().bodies_spec(),
                self.world_spec().wf(),
                ray == aim_ray(player_position, cursor),
                rects@ == ray_rects(bodies@.subrange(0, i as int), ray),
            decreases bodies@.len() - i,
        {
            let b = bodies[i];
            assert(bodies@.subrange(0, i as int + 1).drop_last() =~= bodies@.subrange(0, i as int));
            if let Shape::Cuboid { half_width, half_height } = b.shape {
                if b.role == BodyRole::Static && intersects(&ray, b.position, half_width, half_height) {
                    rects.push(cuboid_rect(b.position, half_width, half_height));
                }
            }
            i += 1;
        }
        assert(bodies@.subrange(0, bodies@.len() as int) =~= bodies@);
        rects
    }

    /// What a frame draws: the player's square at `player_position`, then
    /// the aim overlay towards `cursor`.
    pub fn draw(&self, player_position: Point, cursor: Point) -> (r: Frame)
        requires
            self.wf(),
        ensures
            r.player == player_square(player_position),
            r.rays@ == ray_rects(self.world_spec().bodies_spec(), aim_ray(player_position, cursor)),
    {
        let player = self.player.draw(player_position);
        let rays = self.draw_rays(player_position, cursor);
        Frame { player, rays }
    }

    /// The body behind a handle, or `InvalidHandle` for one that names none.
    pub fn borrow_handle(&self, h: BodyHandle) -> (r: Result<&Body, WorldError>)
        ensures
            h.0 < self.world_spec().bodies_spec().len() ==> r == Ok::<&Body, WorldError>(
                &self.world_spec().bodies_spec()[h.0 as int],
            ),
            h.0 >= self.world_spec().bodies_spec().len() ==> r == Err::<&Body, WorldError>(
                WorldError::InvalidHandle,
            ),
    {
        self.world.body(h)
    }

    pub fn world(&self) -> (r: &World)
        ensures
            *r == self.world_spec(),
    {
        &self.world
    }

    pub fn player(&self) -> (r: Player)
        ensures
            r == self.player_spec(),
    {
        self.player
    }
}

} // verus!
