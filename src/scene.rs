//! The scene: sole owner of every component record, one append-only array per
//! component kind. A slot index handed out by a push names the same slot for
//! the lifetime of the scene.

use vstd::prelude::*;

use crate::components::{Acceleration, Mesh, Velocity};

verus! {

/// The contents of a scene: one sequence of records per component kind.
#[verifier::ext_equal]
pub struct SceneView<S> {
    pub meshes: Seq<Mesh<S>>,
    pub velocities: Seq<Velocity<S>>,
    pub accelerations: Seq<Acceleration<S>>,
    pub rot_velocities: Seq<S>,
    pub rot_accelerations: Seq<S>,
}

impl<S> SceneView<S> {
    /// Every array of `self` starts with the corresponding array of `earlier`:
    /// records were only appended, and no slot of `earlier` was touched.
    pub open spec fn extends(self, earlier: SceneView<S>) -> bool {
        &&& earlier.meshes.is_prefix_of(self.meshes)
        &&& earlier.velocities.is_prefix_of(self.velocities)
        &&& earlier.accelerations.is_prefix_of(self.accelerations)
        &&& earlier.rot_velocities.is_prefix_of(self.rot_velocities)
        &&& earlier.rot_accelerations.is_prefix_of(self.rot_accelerations)
    }

    pub open spec fn push_mesh(self, record: Mesh<S>) -> SceneView<S> {
        SceneView {
            meshes: self.meshes.push(record),
            ..self
        }
    }

    pub open spec fn set_mesh(self, index: int, record: Mesh<S>) -> SceneView<S> {
        SceneView {
            meshes: self.meshes.update(index, record),
            ..self
        }
    }

    pub open spec fn push_velocity(self, record: Velocity<S>) -> SceneView<S> {
        SceneView {
            velocities: self.velocities.push(record),
            ..self
        }
    }

    pub open spec fn set_velocity(self, index: int, record: Velocity<S>) -> SceneView<S> {
        SceneView {
            velocities: self.velocities.update(index, record),
            ..self
        }
    }

    pub open spec fn push_acceleration(self, record: Acceleration<S>) -> SceneView<S> {
        SceneView {
            accelerations: self.accelerations.push(record),
            ..self
        }
    }

    pub open spec fn set_acceleration(self, index: int, record: Acceleration<S>) -> SceneView<S> {
        SceneView {
            accelerations: self.accelerations.update(index, record),
            ..self
        }
    }

    pub open spec fn push_rot_velocity(self, record: S) -> SceneView<S> {
        SceneView {
            rot_velocities: self.rot_velocities.push(record),
            ..self
        }
    }

    pub open spec fn set_rot_velocity(self, index: int, record: S) -> SceneView<S> {
        SceneView {
            rot_velocities: self.rot_velocities.update(index, record),
            ..self
        }
    }

    pub open spec fn push_rot_acceleration(self, record: S) -> SceneView<S> {
        SceneView {
            rot_accelerations: self.rot_accelerations.push(record),
            ..self
        }
    }

    pub open spec fn set_rot_acceleration(self, index: int, record: S) -> SceneView<S> {
        SceneView {
            rot_accelerations: self.rot_accelerations.update(index, record),
            ..self
        }
    }
}

/// Append-only storage for every component kind.
pub struct Scene<S> {
    pub meshes: Vec<Mesh<S>>,
    pub velocities: Vec<Velocity<S>>,
    pub accelerations: Vec<Acceleration<S>>,
    pub rot_velocities: Vec<S>,
    pub rot_accelerations: Vec<S>,
}

impl<S> View for Scene<S> {
    type V = SceneView<S>;

    open spec fn view(&self) -> SceneView<S> {
        SceneView {
            meshes: self.meshes@,
            velocities: self.velocities@,
            accelerations: self.accelerations@,
            rot_velocities: self.rot_velocities@,
            rot_accelerations: self.rot_accelerations@,
        }
    }
}

impl<S: Copy> Scene<S> {
    pub fn new() -> (r: Self)
        ensures
            r@.meshes.len() == 0,
            r@.velocities.len() == 0,
            r@.accelerations.len() == 0,
            r@.rot_velocities.len() == 0,
            r@.rot_accelerations.len() == 0,
    {
        Self {
            meshes: Vec::new(),
            velocities: Vec::new(),
            accelerations: Vec::new(),
            rot_velocities: Vec::new(),
            rot_accelerations: Vec::new(),
        }
    }

    /// Appends a mesh and returns its slot index.
    pub fn push_mesh(&mut self, record: Mesh<S>) -> (r: usize)
        ensures
            r == old(self)@.meshes.len(),
            final(self)@ == old(self)@.push_mesh(record),
    {
        let index: usize = self.meshes.len();
        self.meshes.push(record);
        index
    }

    pub fn get_mesh(&self, index: usize) -> (r: &Mesh<S>)
        requires
            index < self@.meshes.len(),
        ensures
            *r == self@.meshes[index as int],
    {
        &self.meshes[index]
    }

    pub fn get_mesh_mut(&mut self, index: usize) -> (r: &mut Mesh<S>)
        requires
            index < old(self)@.meshes.len(),
        ensures
            *r == old(self)@.meshes[index as int],
            final(self)@ == old(self)@.set_mesh(index as int, *final(r)),
    {
        &mut self.meshes[index]
    }

    /// Appends a linear velocity and returns its slot index.
    pub fn push_velocity(&mut self, record: Velocity<S>) -> (r: usize)
        ensures
            r == old(self)@.velocities.len(),
            final(self)@ == old(self)@.push_velocity(record),
    {
        let index: usize = self.velocities.len();
        self.velocities.push(record);
        index
    }

    pub fn get_velocity(&self, index: usize) -> (r: &Velocity<S>)
        requires
            index < self@.velocities.len(),
        ensures
            *r == self@.velocities[index as int],
    {
        &self.velocities[index]
    }

    pub fn get_velocity_mut(&mut self, index: usize) -> (r: &mut Velocity<S>)
        requires
            index < old(self)@.velocities.len(),
        ensures
            *r == old(self)@.velocities[index as int],
            final(self)@ == old(self)@.set_velocity(index as int, *final(r)),
    {
        &mut self.velocities[index]
    }

    /// Appends a linear acceleration and returns its slot index.
    pub fn push_acceleration(&mut self, record: Acceleration<S>) -> (r: usize)
        ensures
            r == old(self)@.accelerations.len(),
            final(self)@ == old(self)@.push_acceleration(record),
    {
        let index: usize = self.accelerations.len();
        self.accelerations.push(record);
        index
    }

    pub fn get_acceleration(&self, index: usize) -> (r: &Acceleration<S>)
        requires
            index < self@.accelerations.len(),
        ensures
            *r == self@.accelerations[index as int],
    {
        &self.accelerations[index]
    }

    pub fn get_acceleration_mut(&mut self, index: usize) -> (r: &mut Acceleration<S>)
        requires
            index < old(self)@.accelerations.len(),
        ensures
            *r == old(self)@.accelerations[index as int],
            final(self)@ == old(self)@.set_acceleration(index as int, *final(r)),
    {
        &mut self.accelerations[index]
    }

    /// Appends an angular velocity and returns its slot index.
    pub fn push_rot_velocity(&mut self, record: S) -> (r: usize)
        ensures
            r == old(self)@.rot_velocities.len(),
            final(self)@ == old(self)@.push_rot_velocity(record),
    {
        let index: usize = self.rot_velocities.len();
        self.rot_velocities.push(record);
        index
    }

    pub fn get_rot_velocity(&self, index: usize) -> (r: &S)
        requires
            index < self@.rot_velocities.len(),
        ensures
            *r == self@.rot_velocities[index as int],
    {
        &self.rot_velocities[index]
    }

    pub fn get_rot_velocity_mut(&mut self, index: usize) -> (r: &mut S)
        requires
            index < old(self)@.rot_velocities.len(),
        ensures
            *r == old(self)@.rot_velocities[index as int],
            final(self)@ == old(self)@.set_rot_velocity(index as int, *final(r)),
    {
        &mut self.rot_velocities[index]
    }

    /// Appends an angular acceleration and returns its slot index.
    pub fn push_rot_acceleration(&mut self, record: S) -> (r: usize)
        ensures
            r == old(self)@.rot_accelerations.len(),
            final(self)@ == old(self)@.push_rot_acceleration(record),
    {
        let index: usize = self.rot_accelerations.len();
        self.rot_accelerations.push(record);
        index
    }

    pub fn get_rot_acceleration(&self, index: usize) -> (r: &S)
        requires
            index < self@.rot_accelerations.len(),
        ensures
            *r == self@.rot_accelerations[index as int],
    {
        &self.rot_accelerations[index]
    }

    pub fn get_rot_acceleration_mut(&mut self, index: usize) -> (r: &mut S)
        requires
            index < old(self)@.rot_accelerations.len(),
        ensures
            *r == old(self)@.rot_accelerations[index as int],
            final(self)@ == old(self)@.set_rot_acceleration(index as int, *final(r)),
    {
        &mut self.rot_accelerations[index]
    }
}

} // verus!
