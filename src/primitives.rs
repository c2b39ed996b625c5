//! Vertex records and the canonical shapes built from them.

use vstd::prelude::*;

use crate::seqs::{concat, lemma_concat_take_step, shifted};

verus! {

/// A point or vector in three dimensions.
#[derive(Debug, Clone, Copy, PartialEq)]
pub struct Vec3<S> {
    pub x: S,
    pub y: S,
    pub z: S,
}

/// A point in two dimensions (texture coordinates).
#[derive(Debug, Clone, Copy, PartialEq)]
pub struct Vec2<S> {
    pub x: S,
    pub y: S,
}

/// One vertex: position, colour (as RGB), texture coordinate and normal.
#[derive(Debug, Clone, Copy, PartialEq)]
pub struct Vert<S> {
    pub pos: Vec3<S>,
    pub color: Vec3<S>,
    pub uv: Vec2<S>,
    pub normal: Vec3<S>,
}

impl<S: Copy> Vert<S> {
    pub fn new(pos: Vec3<S>, color: Vec3<S>, uv: Vec2<S>, normal: Vec3<S>) -> (r: Vert<S>)
        ensures
            r == (Vert { pos, color, uv, normal }),
    {
        Vert { pos, color, uv, normal }
    }
}

/// The triangle list that covers a quad whose corners are given in order.
pub open spec fn quad_elements() -> Seq<u32> {
    seq![0u32, 1, 2, 0, 2, 3]
}

/// Four corners and the two triangles that cover them.
#[derive(Debug, Clone, Copy)]
pub struct Quad<S> {
    pub verts: [Vert<S>; 4],
    pub elements: [u32; 6],
}

impl<S: Copy> Quad<S> {
    pub fn new(verts: [Vert<S>; 4]) -> (r: Quad<S>)
        ensures
            r.verts == verts,
            r.elements@ == quad_elements(),
    {
        let q = Quad { verts, elements: [0, 1, 2, 0, 2, 3] };
        assert(q.elements@ =~= quad_elements());
        q
    }

    pub fn elements(&self) -> (r: [u32; 6])
        ensures
            r == self.elements,
    {
        self.elements
    }

    pub fn verts(&self) -> (r: [Vert<S>; 4])
        ensures
            r == self.verts,
    {
        self.verts
    }
}

/// Three corners of one triangle.
#[derive(Debug, Clone, Copy)]
pub struct Tri<S> {
    pub verts: [Vert<S>; 3],
}

impl<S: Copy> Tri<S> {
    pub fn new(verts: [Vert<S>; 3]) -> (r: Tri<S>)
        ensures
            r.verts == verts,
    {
        Tri { verts }
    }

    pub fn elements(&self) -> (r: [u32; 3])
        ensures
            r@ == seq![0u32, 1, 2],
    {
        let r = [0, 1, 2];
        assert(r@ =~= seq![0u32, 1, 2]);
        r
    }
}

/// Six quads, one per face.
#[derive(Debug, Clone, Copy)]
pub struct Cube<S> {
    pub quads: [Quad<S>; 6],
}

impl<S: Copy> Cube<S> {
    /// The corners of each face, face by face.
    pub open spec fn face_verts(&self) -> Seq<Seq<Vert<S>>> {
        Seq::new(6, |q: int| self.quads@[q].verts@)
    }

    /// The triangle list of each face, shifted past the corners of the faces before it.
    pub open spec fn face_elements(&self) -> Seq<Seq<u32>> {
        Seq::new(6, |q: int| shifted(self.quads@[q].elements@, 4 * q))
    }

    /// Every shifted index still fits in a `u32`.
    pub open spec fn offsets_fit(&self) -> bool {
        forall|q: int, j: int| 0 <= q < 6 && 0 <= j < 6 ==> #[trigger] self.quads@[q].elements@[j] + 4 * q <= u32::MAX
    }

    pub fn verts(&self) -> (r: Vec<Vert<S>>)
        ensures
            r@ == concat(self.face_verts()),
    {
        let ghost parts = self.face_verts();
        let mut out: Vec<Vert<S>> = Vec::new();
        let mut q: usize = 0;
        while q < 6
            invariant
                q <= 6,
                parts == self.face_verts(),
                out@ == concat(parts.take(q as int)),
            decreases 6 - q,
        {
            let face = self.quads[q].verts;
            let mut j: usize = 0;
            while j < 4
                invariant
                    q < 6,
                    j <= 4,
                    face@ == parts[q as int],
                    out@ == concat(parts.take(q as int)) + face@.take(j as int),
                decreases 4 - j,
            {
                out.push(face[j]);
                proof {
                    assert(face@.take(j as int + 1) =~= face@.take(j as int).push(face@[j as int]));
                }
                j += 1;
            }
            proof {
                assert(face@.take(4) =~= face@);
                lemma_concat_take_step(parts, q as int);
            }
            q += 1;
        }
        assert(parts.take(6) =~= parts);
        out
    }

    pub fn elements(&self) -> (r: Vec<u32>)
        requires
            self.offsets_fit(),
        ensures
            r@ == concat(self.face_elements()),
    {
        let ghost parts = self.face_elements();
        let mut out: Vec<u32> = Vec::new();
        let mut offset: u32 = 0;
        let mut q: usize = 0;
        while q < 6
            invariant
                q <= 6,
                offset == 4 * q,
                self.offsets_fit(),
                parts == self.face_elements(),
                out@ == concat(parts.take(q as int)),
            decreases 6 - q,
        {
            let face = self.quads[q].elements;
            let ghost target = parts[q as int];
            let mut j: usize = 0;
            while j < 6
                invariant
                    q < 6,
                    j <= 6,
                    offset == 4 * q,
                    self.offsets_fit(),
                    face@ == self.quads@[q as int].elements@,
                    target == shifted(face@, offset as int),
                    out@ == concat(parts.take(q as int)) + target.take(j as int),
                decreases 6 - j,
            {
                assert(self.quads@[q as int].elements@[j as int] + 4 * q <= u32::MAX);
                out.push(face[j] + offset);
                proof {
                    assert(target.take(j as int + 1) =~= target.take(j as int).push(target[j as int]));
                }
                j += 1;
            }
            proof {
                assert(target.take(6) =~= target);
                lemma_concat_take_step(parts, q as int);
            }
            offset += 4;
            q += 1;
        }
        assert(parts.take(6) =~= parts);
        out
    }
}

} // verus!
