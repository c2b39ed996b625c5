//! Entities: handles that associate at most one component of each kind,
//! by slot index, with one game object.
//!
//! An entity owns no component data. Each `add_*` pushes a new record into the
//! scene and remembers its slot. Adding a kind that the entity already holds
//! is refused: the scene is left untouched and the existing slot is reported,
//! so no record is ever orphaned.

use vstd::prelude::*;

use crate::components::{Acceleration, Component, Mesh, Velocity};
use crate::primitives::Vec3;
use crate::scene::{Scene, SceneView};

verus! {

/// Optional slot indices into a scene, one per component kind.
#[derive(Debug, Clone, Copy, PartialEq, Eq, Structural)]
pub struct Entity {
    pub mesh: Option<usize>,
    pub velocity: Option<usize>,
    pub acceleration: Option<usize>,
    pub rot_velocity: Option<usize>,
    pub rot_acceleration: Option<usize>,
}

impl Entity {
    /// Every slot the entity holds exists in `scene`.
    pub open spec fn valid_for<S>(&self, scene: SceneView<S>) -> bool {
        &&& (self.mesh matches Some(i) ==> i < scene.meshes.len())
        &&& (self.velocity matches Some(i) ==> i < scene.velocities.len())
        &&& (self.acceleration matches Some(i) ==> i < scene.accelerations.len())
        &&& (self.rot_velocity matches Some(i) ==> i < scene.rot_velocities.len())
        &&& (self.rot_acceleration matches Some(i) ==> i < scene.rot_accelerations.len())
    }

    /// The entity resolves to the same records in `earlier` and in `later`.
    pub open spec fn resolves_alike<S>(&self, earlier: SceneView<S>, later: SceneView<S>) -> bool {
        &&& (self.mesh matches Some(i) ==> later.meshes[i as int] == earlier.meshes[i as int])
        &&& (self.velocity matches Some(i) ==> later.velocities[i as int] == earlier.velocities[i as int])
        &&& (self.acceleration matches Some(i) ==> later.accelerations[i as int] == earlier.accelerations[i as int])
        &&& (self.rot_velocity matches Some(i) ==> later.rot_velocities[i as int] == earlier.rot_velocities[i as int])
        &&& (self.rot_acceleration matches Some(i) ==> later.rot_accelerations[i as int] == earlier.rot_accelerations[i as int])
    }

    /// The entity holds none of the slots `scene` has not handed out yet.
    pub open spec fn below_next_slots<S>(&self, scene: SceneView<S>) -> bool {
        &&& (self.mesh matches Some(i) ==> i != scene.meshes.len())
        &&& (self.velocity matches Some(i) ==> i != scene.velocities.len())
        &&& (self.acceleration matches Some(i) ==> i != scene.accelerations.len())
        &&& (self.rot_velocity matches Some(i) ==> i != scene.rot_velocities.len())
        &&& (self.rot_acceleration matches Some(i) ==> i != scene.rot_accelerations.len())
    }

    /// Whether every slot the entity holds exists in `scene`.
    pub fn is_valid_for<S: Copy>(&self, scene: &Scene<S>) -> (r: bool)
        ensures
            r == self.valid_for(scene@),
    {
        let mesh_ok = match self.mesh {
            Some(i) => i < scene.meshes.len(),
            None => true,
        };
        let velocity_ok = match self.velocity {
            Some(i) => i < scene.velocities.len(),
            None => true,
        };
        let acceleration_ok = match self.acceleration {
            Some(i) => i < scene.accelerations.len(),
            None => true,
        };
        let rot_velocity_ok = match self.rot_velocity {
            Some(i) => i < scene.rot_velocities.len(),
            None => true,
        };
        let rot_acceleration_ok = match self.rot_acceleration {
            Some(i) => i < scene.rot_accelerations.len(),
            None => true,
        };
        mesh_ok && velocity_ok && acceleration_ok && rot_velocity_ok && rot_acceleration_ok
    }

    pub fn new() -> (r: Self)
        ensures
            r.mesh is None,
            r.velocity is None,
            r.acceleration is None,
            r.rot_velocity is None,
            r.rot_acceleration is None,
    {
        Self {
            mesh: None,
            velocity: None,
            acceleration: None,
            rot_velocity: None,
            rot_acceleration: None,
        }
    }

    /// Attaches a mesh: pushes the record into `scene` and remembers its slot,
    /// which is returned. If the entity already holds such a slot, nothing
    /// changes and that slot comes back as the error.
    pub fn add_mesh<S: Copy>(&mut self, scene: &mut Scene<S>, mesh: Mesh<S>) -> (r: Result<usize, Component>)
        ensures
            match old(self).mesh {
                Some(i) => {
                    &&& r == Err::<usize, Component>(Component::Mesh(i))
                    &&& *final(self) == *old(self)
                    &&& final(scene)@ == old(scene)@
                },
                None => {
                    &&& r == Ok::<usize, Component>(old(scene)@.meshes.len() as usize)
                    &&& *final(self) == (Entity { mesh: Some(old(scene)@.meshes.len() as usize), ..*old(self) })
                    &&& final(scene)@ == old(scene)@.push_mesh(mesh)
                    &&& final(scene)@.extends(old(scene)@)
                },
            },
    {
        match self.mesh {
            Some(i) => Err(Component::Mesh(i)),
            None => {
                let index: usize = scene.push_mesh(mesh);
                self.mesh = Some(index);
                Ok(index)
            },
        }
    }

    /// The record in `scene` that this entity's slot names, for reading and
    /// writing; `None` when the entity has no such slot.
    pub fn get_mesh<'a, S: Copy>(&self, scene: &'a mut Scene<S>) -> (r: Option<&'a mut Mesh<S>>)
        requires
            self.valid_for(old(scene)@),
        ensures
            match self.mesh {
                None => r is None && final(scene)@ == old(scene)@,
                Some(i) => r matches Some(x) && *x == old(scene)@.meshes[i as int]
                    && final(scene)@ == old(scene)@.set_mesh(i as int, *final(x)),
            },
    {
        match self.mesh {
            Some(i) => Some(scene.get_mesh_mut(i)),
            None => None,
        }
    }

    pub fn get_mesh_index(&self) -> (r: Option<usize>)
        ensures
            r == self.mesh,
    {
        match self.mesh {
            Some(i) => Some(i),
            None => None,
        }
    }

    /// Attaches a linear velocity: pushes the record into `scene` and remembers its slot,
    /// which is returned. If the entity already holds such a slot, nothing
    /// changes and that slot comes back as the error.
    pub fn add_velocity<S: Copy>(&mut self, scene: &mut Scene<S>, velocity: Vec3<S>) -> (r: Result<usize, Component>)
        ensures
            match old(self).velocity {
                Some(i) => {
                    &&& r == Err::<usize, Component>(Component::Velocity(i))
                    &&& *final(self) == *old(self)
                    &&& final(scene)@ == old(scene)@
                },
                None => {
                    &&& r == Ok::<usize, Component>(old(scene)@.velocities.len() as usize)
                    &&& *final(self) == (Entity { velocity: Some(old(scene)@.velocities.len() as usize), ..*old(self) })
                    &&& final(scene)@ == old(scene)@.push_velocity((Velocity { velocity }))
                    &&& final(scene)@.extends(old(scene)@)
                },
            },
    {
        match self.velocity {
            Some(i) => Err(Component::Velocity(i)),
            None => {
                let record = Velocity { velocity };
                let index: usize = scene.push_velocity(record);
                self.velocity = Some(index);
                Ok(index)
            },
        }
    }

    /// The record in `scene` that this entity's slot names, for reading and
    /// writing; `None` when the entity has no such slot.
    pub fn get_velocity<'a, S: Copy>(&self, scene: &'a mut Scene<S>) -> (r: Option<&'a mut Velocity<S>>)
        requires
            self.valid_for(old(scene)@),
        ensures
            match self.velocity {
                None => r is None && final(scene)@ == old(scene)@,
                Some(i) => r matches Some(x) && *x == old(scene)@.velocities[i as int]
                    && final(scene)@ == old(scene)@.set_velocity(i as int, *final(x)),
            },
    {
        match self.velocity {
            Some(i) => Some(scene.get_velocity_mut(i)),
            None => None,
        }
    }

    pub fn get_velocity_index(&self) -> (r: Option<usize>)
        ensures
            r == self.velocity,
    {
        match self.velocity {
            Some(i) => Some(i),
            None => None,
        }
    }

    /// Attaches a linear acceleration: pushes the record into `scene` and remembers its slot,
    /// which is returned. If the entity already holds such a slot, nothing
    /// changes and that slot comes back as the error.
    pub fn add_acceleration<S: Copy>(&mut self, scene: &mut Scene<S>, acceleration: Vec3<S>) -> (r: Result<usize, Component>)
        ensures
            match old(self).acceleration {
                Some(i) => {
                    &&& r == Err::<usize, Component>(Component::Acceleration(i))
                    &&& *final(self) == *old(self)
                    &&& final(scene)@ == old(scene)@
                },
                None => {
                    &&& r == Ok::<usize, Component>(old(scene)@.accelerations.len() as usize)
                    &&& *final(self) == (Entity { acceleration: Some(old(scene)@.accelerations.len() as usize), ..*old(self) })
                    &&& final(scene)@ == old(scene)@.push_acceleration((Acceleration { acceleration }))
                    &&& final(scene)@.extends(old(scene)@)
                },
            },
    {
        match self.acceleration {
            Some(i) => Err(Component::Acceleration(i)),
            None => {
                let record = Acceleration { acceleration };
                let index: usize = scene.push_acceleration(record);
                self.acceleration = Some(index);
                Ok(index)
            },
        }
    }

    /// The record in `scene` that this entity's slot names, for reading and
    /// writing; `None` when the entity has no such slot.
    pub fn get_acceleration<'a, S: Copy>(&self, scene: &'a mut Scene<S>) -> (r: Option<&'a mut Acceleration<S>>)
        requires
            self.valid_for(old(scene)@),
        ensures
            match self.acceleration {
                None => r is None && final(scene)@ == old(scene)@,
                Some(i) => r matches Some(x) && *x == old(scene)@.accelerations[i as int]
                    && final(scene)@ == old(scene)@.set_acceleration(i as int, *final(x)),
            },
    {
        match self.acceleration {
            Some(i) => Some(scene.get_acceleration_mut(i)),
            None => None,
        }
    }

    pub fn get_acceleration_index(&self) -> (r: Option<usize>)
        ensures
            r == self.acceleration,
    {
        match self.acceleration {
            Some(i) => Some(i),
            None => None,
        }
    }

    /// Attaches an angular velocity: pushes the record into `scene` and remembers its slot,
    /// which is returned. If the entity already holds such a slot, nothing
    /// changes and that slot comes back as the error.
    pub fn add_rot_velocity<S: Copy>(&mut self, scene: &mut Scene<S>, velocity: S) -> (r: Result<usize, Component>)
        ensures
            match old(self).rot_velocity {
                Some(i) => {
                    &&& r == Err::<usize, Component>(Component::RotVelocity(i))
                    &&& *final(self) == *old(self)
                    &&& final(scene)@ == old(scene)@
                },
                None => {
                    &&& r == Ok::<usize, Component>(old(scene)@.rot_velocities.len() as usize)
                    &&& *final(self) == (Entity { rot_velocity: Some(old(scene)@.rot_velocities.len() as usize), ..*old(self) })
                    &&& final(scene)@ == old(scene)@.push_rot_velocity(velocity)
                    &&& final(scene)@.extends(old(scene)@)
                },
            },
    {
        match self.rot_velocity {
            Some(i) => Err(Component::RotVelocity(i)),
            None => {
                let index: usize = scene.push_rot_velocity(velocity);
                self.rot_velocity = Some(index);
                Ok(index)
            },
        }
    }

    /// The record in `scene` that this entity's slot names, for reading and
    /// writing; `None` when the entity has no such slot.
    pub fn get_rot_velocity<'a, S: Copy>(&self, scene: &'a mut Scene<S>) -> (r: Option<&'a mut S>)
        requires
            self.valid_for(old(scene)@),
        ensures
            match self.rot_velocity {
                None => r is None && final(scene)@ == old(scene)@,
                Some(i) => r matches Some(x) && *x == old(scene)@.rot_velocities[i as int]
                    && final(scene)@ == old(scene)@.set_rot_velocity(i as int, *final(x)),
            },
    {
        match self.rot_velocity {
            Some(i) => Some(scene.get_rot_velocity_mut(i)),
            None => None,
        }
    }

    pub fn get_rot_velocity_index(&self) -> (r: Option<usize>)
        ensures
            r == self.rot_velocity,
    {
        match self.rot_velocity {
            Some(i) => Some(i),
            None => None,
        }
    }

    /// Attaches an angular acceleration: pushes the record into `scene` and remembers its slot,
    /// which is returned. If the entity already holds such a slot, nothing
    /// changes and that slot comes back as the error.
    pub fn add_rot_acceleration<S: Copy>(&mut self, scene: &mut Scene<S>, acceleration: S) -> (r: Result<usize, Component>)
        ensures
            match old(self).rot_acceleration {
                Some(i) => {
                    &&& r == Err::<usize, Component>(Component::RotAcceleration(i))
                    &&& *final(self) == *old(self)
                    &&& final(scene)@ == old(scene)@
                },
                None => {
                    &&& r == Ok::<usize, Component>(old(scene)@.rot_accelerations.len() as usize)
                    &&& *final(self) == (Entity { rot_acceleration: Some(old(scene)@.rot_accelerations.len() as usize), ..*old(self) })
                    &&& final(scene)@ == old(scene)@.push_rot_acceleration(acceleration)
                    &&& final(scene)@.extends(old(scene)@)
                },
            },
    {
        match self.rot_acceleration {
            Some(i) => Err(Component::RotAcceleration(i)),
            None => {
                let index: usize = scene.push_rot_acceleration(acceleration);
                self.rot_acceleration = Some(index);
                Ok(index)
            },
        }
    }

    /// The record in `scene` that this entity's slot names, for reading and
    /// writing; `None` when the entity has no such slot.
    pub fn get_rot_acceleration<'a, S: Copy>(&self, scene: &'a mut Scene<S>) -> (r: Option<&'a mut S>)
        requires
            self.valid_for(old(scene)@),
        ensures
            match self.rot_acceleration {
                None => r is None && final(scene)@ == old(scene)@,
                Some(i) => r matches Some(x) && *x == old(scene)@.rot_accelerations[i as int]
                    && final(scene)@ == old(scene)@.set_rot_acceleration(i as int, *final(x)),
            },
    {
        match self.rot_acceleration {
            Some(i) => Some(scene.get_rot_acceleration_mut(i)),
            None => None,
        }
    }

    pub fn get_rot_acceleration_index(&self) -> (r: Option<usize>)
        ensures
            r == self.rot_acceleration,
    {
        match self.rot_acceleration {
            Some(i) => Some(i),
            None => None,
        }
    }
}

/// Slot indices are stable. Along any run of scene states in which each state
/// extends the one before (as every `add_*` guarantees), an entity that was
/// valid at the start stays valid, resolves to the very records it resolved to
/// at the start, and never holds the slot that a later `add_*` hands out
/// (the length of that kind's array at that moment).
pub proof fn lemma_index_stability<S>(e: Entity, history: Seq<SceneView<S>>)
    requires
        history.len() > 0,
        e.valid_for(history[0]),
        forall|i: int| 0 <= i < history.len() - 1 ==> #[trigger] history[i + 1].extends(history[i]),
    ensures
        forall|i: int|
            0 <= i < history.len() ==> {
                &&& e.valid_for(#[trigger] history[i])
                &&& e.resolves_alike(history[0], history[i])
                &&& e.below_next_slots(history[i])
            },
    decreases history.len(),
{
    if history.len() > 1 {
        let init = history.drop_last();
        assert forall|i: int| 0 <= i < init.len() - 1 implies #[trigger] init[i + 1].extends(init[i]) by {
            assert(history[i + 1].extends(history[i]));
        }
        lemma_index_stability(e, init);
        let n = history.len() - 1;
        let m = n - 1;
        assert(history[m + 1].extends(history[m]));
        assert(e.valid_for(init[n - 1]));
        assert(e.resolves_alike(history[0], init[n - 1]));
        assert forall|i: int| 0 <= i < history.len() implies {
            &&& e.valid_for(#[trigger] history[i])
            &&& e.resolves_alike(history[0], history[i])
            &&& e.below_next_slots(history[i])
        } by {
            if i < n {
                assert(history[i] == init[i]);
            }
        }
    }
}

} // verus!
