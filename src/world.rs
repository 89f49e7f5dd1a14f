//! The arena of bodies that make up a scene: static level geometry, dynamic
//! bodies (one of them the player) and at most one ground sensor.
//!
//! The arena records what each body is and where it starts; integrating the
//! dynamic bodies over time is the simulation's work, which reads the arena.
use vstd::prelude::*;

use crate::geometry::{Direction, Point, Shape};

verus! {

/// Contact parameters, in thousandths.
#[derive(Clone, Copy, Debug, PartialEq, Eq, Structural)]
pub struct Material {
    pub restitution_milli: u32,
    pub friction_milli: u32,
}

/// What a body is for, resolved by matching rather than by downcasting.
#[derive(Clone, Copy, Debug, PartialEq, Eq, Structural)]
pub enum BodyRole {
    Static,
    DynamicPlayer,
    DynamicOther,
}

/// A stable index into the arena.
#[derive(Clone, Copy, Debug, PartialEq, Eq, Structural)]
pub struct BodyHandle(pub usize);

/// One body of the arena. A static body never leaves `position`; a dynamic
/// one starts there. `density_milli` is zero for static bodies.
#[derive(Clone, Copy, Debug, PartialEq, Eq, Structural)]
pub struct Body {
    pub role: BodyRole,
    pub shape: Shape,
    pub position: Point,
    pub density_milli: u32,
    pub material: Material,
}

/// A non-colliding probe that follows the body it is attached to, at a
/// fixed offset; it is only ever asked what it overlaps.
#[derive(Clone, Copy, Debug, PartialEq, Eq, Structural)]
pub struct Sensor {
    pub shape: Shape,
    pub attached_to: BodyHandle,
    pub offset: Point,
}

#[derive(Clone, Copy, Debug, PartialEq, Eq, Structural)]
pub enum WorldError {
    /// A radius or half-extent was zero or negative.
    InvalidShape,
    /// The handle names no body of this world.
    InvalidHandle,
    /// The world has a player body already.
    PlayerExists,
    /// The world has its sensor already.
    SensorExists,
}

pub struct World {
    gravity: Direction,
    bodies: Vec<Body>,
    player: Option<BodyHandle>,
    sensor: Option<Sensor>,
}

impl World {
    pub closed spec fn gravity_spec(&self) -> Direction {
        self.gravity
    }

    pub closed spec fn bodies_spec(&self) -> Seq<Body> {
        self.bodies@
    }

    pub closed spec fn player_spec(&self) -> Option<BodyHandle> {
        self.player
    }

    pub closed spec fn sensor_spec(&self) -> Option<Sensor> {
        self.sensor
    }

    /// Every shape is valid; `player` names the one body whose role is
    /// the player, if any; the sensor is attached to a body of the arena.
    pub open spec fn wf(&self) -> bool {
        &&& forall|i: int|
            0 <= i < self.bodies_spec().len() ==> (#[trigger] self.bodies_spec()[i]).shape.wf()
        &&& forall|i: int|
            0 <= i < self.bodies_spec().len() ==> ((#[trigger] self.bodies_spec()[i]).role
                == BodyRole::DynamicPlayer <==> self.player_spec() == Some(BodyHandle(i as usize)))
        &&& self.player_spec() is Some ==> (self.player_spec()->0).0 < self.bodies_spec().len()
        &&& self.sensor_spec() is Some ==> {
            &&& self.sensor_spec()->0.shape.wf()
            &&& self.sensor_spec()->0.attached_to.0 < self.bodies_spec().len()
        }
    }

    /// An empty world under the given gravity, in pixels per second squared.
    pub fn new(gravity: Direction) -> (r: World)
        ensures
            r.wf(),
            r.gravity_spec() == gravity,
            r.bodies_spec() == Seq::<Body>::empty(),
            r.player_spec() is None,
            r.sensor_spec() is None,
    {
        World { gravity, bodies: Vec::new(), player: None, sensor: None }
    }

    pub fn gravity(&self) -> (r: Direction)
        ensures
            r == self.gravity_spec(),
    {
        self.gravity
    }

    /// All bodies, in the order they were added: a body's handle is its index.
    pub fn bodies(&self) -> (r: &Vec<Body>)
        ensures
            r@ == self.bodies_spec(),
    {
        &self.bodies
    }

    pub fn player(&self) -> (r: Option<BodyHandle>)
        ensures
            r == self.player_spec(),
    {
        self.player
    }

    pub fn sensor(&self) -> (r: Option<Sensor>)
        ensures
            r == self.sensor_spec(),
    {
        self.sensor
    }

    /// The body behind a handle, or `InvalidHandle` for one that names none.
    pub fn body(&self, h: BodyHandle) -> (r: Result<&Body, WorldError>)
        ensures
            h.0 < self.bodies_spec().len() ==> r == Ok::<&Body, WorldError>(
                &self.bodies_spec()[h.0 as int],
            ),
            h.0 >= self.bodies_spec().len() ==> r == Err::<&Body, WorldError>(
                WorldError::InvalidHandle,
            ),
    {
        if h.0 < self.bodies.len() {
            Ok(&self.bodies[h.0])
        } else {
            Err(WorldError::InvalidHandle)
        }
    }

    /// Registers immovable geometry at `translation` and returns its handle.
    pub fn add_static_body(&mut self, shape: Shape, material: Material, translation: Point) -> (r:
        Result<BodyHandle, WorldError>)
        requires
            old(self).wf(),
        ensures
            final(self).wf(),
            final(self).gravity_spec() == old(self).gravity_spec(),
            final(self).player_spec() == old(self).player_spec(),
            final(self).sensor_spec() == old(self).sensor_spec(),
            !shape.wf() ==> r == Err::<BodyHandle, WorldError>(WorldError::InvalidShape)
                && final(self).bodies_spec() == old(self).bodies_spec(),
            shape.wf() ==> r == Ok::<BodyHandle, WorldError>(
                BodyHandle(old(self).bodies_spec().len() as usize),
            ) && final(self).bodies_spec() == old(self).bodies_spec().push(
                Body {
                    role: BodyRole::Static,
                    shape,
                    position: translation,
                    density_milli: 0,
                    material,
                },
            ),
    {
        if !shape.is_valid() {
            return Err(WorldError::InvalidShape);
        }
        let h = BodyHandle(self.bodies.len());
        self.bodies.push(
            Body { role: BodyRole::Static, shape, position: translation, density_milli: 0, material },
        );
        Ok(h)
    }

    /// Registers a body that gravity and contacts move, starting at
    /// `translation`. With `is_player` it takes the player's role, which
    /// only one body of a world can hold.
    pub fn add_dynamic_body(
        &mut self,
        shape: Shape,
        density_milli: u32,
        material: Material,
        translation: Point,
        is_player: bool,
    ) -> (r: Result<BodyHandle, WorldError>)
        requires
            old(self).wf(),
        ensures
            final(self).wf(),
            final(self).gravity_spec() == old(self).gravity_spec(),
            final(self).sensor_spec() == old(self).sensor_spec(),
            !shape.wf() ==> r == Err::<BodyHandle, WorldError>(WorldError::InvalidShape),
            shape.wf() && is_player && old(self).player_spec() is Some ==> r == Err::<
                BodyHandle,
                WorldError,
            >(WorldError::PlayerExists),
            r is Err ==> final(self).bodies_spec() == old(self).bodies_spec()
                && final(self).player_spec() == old(self).player_spec(),
            shape.wf() && !(is_player && old(self).player_spec() is Some) ==> {
                let h = BodyHandle(old(self).bodies_spec().len() as usize);
                &&& r == Ok::<BodyHandle, WorldError>(h)
                &&& final(self).bodies_spec() == old(self).bodies_spec().push(
                    Body {
                        role: if is_player {
                            BodyRole::DynamicPlayer
                        } else {
                            BodyRole::DynamicOther
                        },
                        shape,
                        position: translation,
                        density_milli,
                        material,
                    },
                )
                &&& final(self).player_spec() == if is_player {
                    Some(h)
                } else {
                    old(self).player_spec()
                }
            },
    {
        if !shape.is_valid() {
            return Err(WorldError::InvalidShape);
        }
        if is_player && self.player.is_some() {
            return Err(WorldError::PlayerExists);
        }
        let h = BodyHandle(self.bodies.len());
        let role = if is_player {
            BodyRole::DynamicPlayer
        } else {
            BodyRole::DynamicOther
        };
        self.bodies.push(Body { role, shape, position: translation, density_milli, material });
        if is_player {
            self.player = Some(h);
        }
        Ok(h)
    }

    /// Attaches the world's ground sensor to a body, at `offset` from it.
    pub fn add_sensor(&mut self, shape: Shape, attached_to: BodyHandle, offset: Point) -> (r: Result<
        (),
        WorldError,
    >)
        requires
            old(self).wf(),
        ensures
            final(self).wf(),
            final(self).gravity_spec() == old(self).gravity_spec(),
            final(self).bodies_spec() == old(self).bodies_spec(),
            final(self).player_spec() == old(self).player_spec(),
            !shape.wf() ==> r == Err::<(), WorldError>(WorldError::InvalidShape),
            shape.wf() && attached_to.0 >= old(self).bodies_spec().len() ==> r == Err::<
                (),
                WorldError,
            >(WorldError::InvalidHandle),
            shape.wf() && attached_to.0 < old(self).bodies_spec().len() && old(
                self,
            ).sensor_spec() is Some ==> r == Err::<(), WorldError>(WorldError::SensorExists),
            r is Err ==> final(self).sensor_spec() == old(self).sensor_spec(),
            shape.wf() && attached_to.0 < old(self).bodies_spec().len() && old(
                self,
            ).sensor_spec() is None ==> r == Ok::<(), WorldError>(()) && final(self).sensor_spec()
                == Some(Sensor { shape, attached_to, offset }),
    {
        if !shape.is_valid() {
            return Err(WorldError::InvalidShape);
        }
        if attached_to.0 >= self.bodies.len() {
            return Err(WorldError::InvalidHandle);
        }
        if self.sensor.is_some() {
            return Err(WorldError::SensorExists);
        }
        self.sensor = Some(Sensor { shape, attached_to, offset });
        Ok(())
    }
}

} // verus!
