//! Component records stored in a [`crate::scene::Scene`].

use vstd::prelude::*;

use crate::primitives::{Vec3, Vert};

verus! {

/// A component kind together with its slot index in the scene.
#[derive(Debug, Clone, Copy, PartialEq, Eq, Structural)]
pub enum Component {
    Mesh(usize),
    Velocity(usize),
    Acceleration(usize),
    RotVelocity(usize),
    RotAcceleration(usize),
}

/// Geometry with a rotate / scale / translate transform.
///
/// `elements` is a triangle list local to `verts`: index 0 is the first
/// vertex of this mesh. `rotation` is an axis scaled by the angle.
#[derive(Debug, Clone)]
pub struct Mesh<S> {
    pub verts: Vec<Vert<S>>,
    pub elements: Vec<u32>,
    pub translation: Vec3<S>,
    pub rotation: Vec3<S>,
    pub scale: Vec3<S>,
}

/// `out` is `v` carried through `rotate`, then `scale`, then `translate`,
/// each with the mesh's own parameter, with the vertical texture coordinate
/// passed through `flip` and colour, normal and horizontal texture coordinate
/// kept.
pub open spec fn transformed_vertex<S, R, Z, T, F>(
    mesh: Mesh<S>,
    rotate: R,
    scale: Z,
    translate: T,
    flip: F,
    v: Vert<S>,
    out: Vert<S>,
) -> bool where
    R: Fn(&Vec3<S>, Vec3<S>) -> Vec3<S>,
    Z: Fn(&Vec3<S>, Vec3<S>) -> Vec3<S>,
    T: Fn(&Vec3<S>, Vec3<S>) -> Vec3<S>,
    F: Fn(S) -> S,
 {
    &&& exists|rotated: Vec3<S>, scaled: Vec3<S>|
        #![trigger rotate.ensures((&mesh.rotation, v.pos), rotated), scale.ensures((&mesh.scale, rotated), scaled)]
        {
            &&& rotate.ensures((&mesh.rotation, v.pos), rotated)
            &&& scale.ensures((&mesh.scale, rotated), scaled)
            &&& translate.ensures((&mesh.translation, scaled), out.pos)
        }
    &&& flip.ensures((v.uv.y,), out.uv.y)
    &&& out.uv.x == v.uv.x
    &&& out.color == v.color
    &&& out.normal == v.normal
}

impl<S: Copy> Mesh<S> {
    /// Every index of the triangle list names a vertex of this mesh.
    pub open spec fn indices_local(&self) -> bool {
        forall|j: int| 0 <= j < self.elements@.len() ==> #[trigger] self.elements@[j] < self.verts@.len()
    }

    /// Whether every index of the triangle list names a vertex of this mesh.
    pub fn has_local_indices(&self) -> (r: bool)
        ensures
            r == self.indices_local(),
    {
        let mut j: usize = 0;
        while j < self.elements.len()
            invariant
                j <= self.elements@.len(),
                forall|i: int| 0 <= i < j ==> #[trigger] self.elements@[i] < self.verts@.len(),
            decreases self.elements@.len() - j,
        {
            if self.elements[j] as usize >= self.verts.len() {
                return false;
            }
            j += 1;
        }
        true
    }

    pub fn verts(&self) -> (r: Vec<Vert<S>>)
        ensures
            r@ == self.verts@,
    {
        let mut out: Vec<Vert<S>> = Vec::new();
        let mut i: usize = 0;
        while i < self.verts.len()
            invariant
                i <= self.verts@.len(),
                out@ == self.verts@.take(i as int),
            decreases self.verts@.len() - i,
        {
            out.push(self.verts[i]);
            proof {
                assert(self.verts@.take(i as int + 1) =~= self.verts@.take(i as int).push(self.verts@[i as int]));
            }
            i += 1;
        }
        assert(self.verts@.take(self.verts@.len() as int) =~= self.verts@);
        out
    }

    /// The world-space vertices: each vertex rotated, then scaled, then
    /// translated by this mesh's parameters, with its texture coordinate
    /// flipped vertically. The mesh itself is left as it is.
    pub fn verts_transformed<R, Z, T, F>(&self, rotate: R, scale: Z, translate: T, flip: F) -> (r: Vec<Vert<S>>) where
        R: Fn(&Vec3<S>, Vec3<S>) -> Vec3<S>,
        Z: Fn(&Vec3<S>, Vec3<S>) -> Vec3<S>,
        T: Fn(&Vec3<S>, Vec3<S>) -> Vec3<S>,
        F: Fn(S) -> S,

        requires
            forall|a: &Vec3<S>, p: Vec3<S>| #[trigger] rotate.requires((a, p)),
            forall|a: &Vec3<S>, p: Vec3<S>| #[trigger] scale.requires((a, p)),
            forall|a: &Vec3<S>, p: Vec3<S>| #[trigger] translate.requires((a, p)),
            forall|y: S| #[trigger] flip.requires((y,)),
        ensures
            r@.len() == self.verts@.len(),
            forall|i: int|
                0 <= i < r@.len() ==> transformed_vertex(*self, rotate, scale, translate, flip, self.verts@[i], #[trigger] r@[i]),
    {
        let mut out: Vec<Vert<S>> = Vec::new();
        let mut i: usize = 0;
        while i < self.verts.len()
            invariant
                i <= self.verts@.len(),
                out@.len() == i,
                forall|a: &Vec3<S>, p: Vec3<S>| #[trigger] rotate.requires((a, p)),
                forall|a: &Vec3<S>, p: Vec3<S>| #[trigger] scale.requires((a, p)),
                forall|a: &Vec3<S>, p: Vec3<S>| #[trigger] translate.requires((a, p)),
                forall|y: S| #[trigger] flip.requires((y,)),
                forall|k: int|
                    0 <= k < i ==> transformed_vertex(*self, rotate, scale, translate, flip, self.verts@[k], #[trigger] out@[k]),
            decreases self.verts@.len() - i,
        {
            let v = self.verts[i];
            let rotated = rotate(&self.rotation, v.pos);
            let scaled = scale(&self.scale, rotated);
            let pos = translate(&self.translation, scaled);
            let y = flip(v.uv.y);
            let mut w = v;
            w.pos = pos;
            w.uv.y = y;
            assert(transformed_vertex(*self, rotate, scale, translate, flip, v, w));
            out.push(w);
            i += 1;
        }
        out
    }
}

/// The texture flip does not accumulate. Two separate transformations of the
/// same mesh, with a flip that gives one result per input, yield the same
/// texture coordinates: each is computed from the stored, unflipped
/// coordinate of the vertex.
pub proof fn lemma_uv_flip_stable<S, R, Z, T, F>(
    mesh: Mesh<S>,
    rotate: R,
    scale: Z,
    translate: T,
    flip: F,
    first: Seq<Vert<S>>,
    second: Seq<Vert<S>>,
) where
    R: Fn(&Vec3<S>, Vec3<S>) -> Vec3<S>,
    Z: Fn(&Vec3<S>, Vec3<S>) -> Vec3<S>,
    T: Fn(&Vec3<S>, Vec3<S>) -> Vec3<S>,
    F: Fn(S) -> S,

    requires
        forall|y: S, a: S, b: S| #[trigger] flip.ensures((y,), a) && #[trigger] flip.ensures((y,), b) ==> a == b,
        first.len() == mesh.verts@.len(),
        second.len() == mesh.verts@.len(),
        forall|i: int|
            0 <= i < first.len() ==> transformed_vertex(mesh, rotate, scale, translate, flip, mesh.verts@[i], #[trigger] first[i]),
        forall|i: int|
            0 <= i < second.len() ==> transformed_vertex(mesh, rotate, scale, translate, flip, mesh.verts@[i], #[trigger] second[i]),
    ensures
        forall|i: int| 0 <= i < first.len() ==> #[trigger] first[i].uv == second[i].uv,
{
    assert forall|i: int| 0 <= i < first.len() implies #[trigger] first[i].uv == second[i].uv by {
        assert(transformed_vertex(mesh, rotate, scale, translate, flip, mesh.verts@[i], first[i]));
        assert(transformed_vertex(mesh, rotate, scale, translate, flip, mesh.verts@[i], second[i]));
        assert(flip.ensures((mesh.verts@[i].uv.y,), first[i].uv.y));
        assert(flip.ensures((mesh.verts@[i].uv.y,), second[i].uv.y));
    }
}

/// Linear velocity.
#[derive(Debug, Clone, Copy)]
pub struct Velocity<S> {
    pub velocity: Vec3<S>,
}

impl<S: Copy> Velocity<S> {
    pub fn new(velocity: Vec3<S>) -> (r: Self)
        ensures
            r.velocity == velocity,
    {
        Self { velocity }
    }
}

/// Linear acceleration.
#[derive(Debug, Clone, Copy)]
pub struct Acceleration<S> {
    pub acceleration: Vec3<S>,
}

/// Angular velocity about each axis.
#[derive(Debug, Clone, Copy)]
pub struct RotVelocity<S> {
    pub velocity: Vec3<S>,
}

impl<S: Copy> RotVelocity<S> {
    pub fn new(velocity: Vec3<S>) -> (r: Self)
        ensures
            r.velocity == velocity,
    {
        Self { velocity }
    }
}

/// Angular acceleration about each axis.
#[derive(Debug, Clone, Copy)]
pub struct RotAcceleration<S> {
    pub acceleration: Vec3<S>,
}

} // verus!
