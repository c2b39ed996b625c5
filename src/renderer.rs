//! Per-frame buffer synchronisation: every mesh of the scene merged into one
//! vertex stream and one index stream, ready for a single indexed draw.

use vstd::prelude::*;

use crate::components::{transformed_vertex, Mesh};
use crate::primitives::{Vec3, Vert};
use crate::seqs::{
    concat, lemma_concat_all, lemma_concat_index, lemma_concat_len, lemma_concat_take_step,
    lemma_part_start_mono, lemma_part_start_same_lens, part_start, shifted,
};

verus! {

/// The vertices of each mesh, mesh by mesh.
pub open spec fn mesh_verts<S>(meshes: Seq<Mesh<S>>) -> Seq<Seq<Vert<S>>> {
    meshes.map_values(|m: Mesh<S>| m.verts@)
}

/// The local triangle lists, mesh by mesh.
pub open spec fn mesh_elements<S>(meshes: Seq<Mesh<S>>) -> Seq<Seq<u32>> {
    meshes.map_values(|m: Mesh<S>| m.elements@)
}

/// Where the vertices of mesh `k` start in the merged stream: the vertex
/// counts of the meshes before it, summed.
pub open spec fn vertex_offset<S>(meshes: Seq<Mesh<S>>, k: int) -> nat {
    part_start(mesh_verts(meshes), k)
}

/// Where the indices of mesh `k` start in the merged index stream.
pub open spec fn element_offset<S>(meshes: Seq<Mesh<S>>, k: int) -> nat {
    part_start(mesh_elements(meshes), k)
}

pub open spec fn total_vertices<S>(meshes: Seq<Mesh<S>>) -> nat {
    vertex_offset(meshes, meshes.len() as int)
}

/// Each mesh's triangle list shifted past the vertices of the meshes before it.
pub open spec fn rebased_parts<S>(meshes: Seq<Mesh<S>>) -> Seq<Seq<u32>> {
    Seq::new(meshes.len(), |k: int| shifted(meshes[k].elements@, vertex_offset(meshes, k) as int))
}

/// The merged index stream.
pub open spec fn merged_elements<S>(meshes: Seq<Mesh<S>>) -> Seq<u32> {
    concat(rebased_parts(meshes))
}

/// Index `j` of mesh `k` sits at `element_offset(meshes, k) + j` of the merged
/// index stream, with its value raised by the vertex count of the meshes before
/// mesh `k`, which makes it name a vertex of mesh `k` itself.
pub open spec fn rebased_at<S>(meshes: Seq<Mesh<S>>, k: int, j: int) -> bool {
    let at = element_offset(meshes, k) + j;
    let e = merged_elements(meshes)[at];
    &&& at < merged_elements(meshes).len()
    &&& e == meshes[k].elements@[j] + vertex_offset(meshes, k)
    &&& vertex_offset(meshes, k) <= e < vertex_offset(meshes, k + 1)
}

/// The meshes can share one buffer: each triangle list is local to its mesh,
/// and every merged index fits in a `u32`.
pub open spec fn mergeable<S: Copy>(meshes: Seq<Mesh<S>>) -> bool {
    &&& forall|k: int| 0 <= k < meshes.len() ==> (#[trigger] meshes[k]).indices_local()
    &&& total_vertices(meshes) <= u32::MAX
}

/// The values that one vertex contributes to the flat vertex buffer:
/// position, colour, texture coordinate, normal.
pub open spec fn vertex_fields<S>(v: Vert<S>) -> Seq<S> {
    seq![
        v.pos.x, v.pos.y, v.pos.z,
        v.color.x, v.color.y, v.color.z,
        v.uv.x, v.uv.y,
        v.normal.x, v.normal.y, v.normal.z,
    ]
}

/// What the buffer on the GPU side needs this frame.
#[derive(Debug, Clone, Copy, PartialEq, Eq, Structural)]
pub enum Upload {
    /// The vertex or index count differs from the last upload, or nothing
    /// was uploaded yet: the storage must be allocated anew.
    Allocate,
    /// Both counts are as at the last upload: rewriting in place suffices.
    Rewrite,
}

/// The merged geometry of the scene and what was last uploaded of it.
pub struct Renderer<S> {
    pub verts: Vec<Vert<S>>,
    pub elements: Vec<u32>,
    /// Vertex and index counts of the last upload.
    pub uploaded: Option<(usize, usize)>,
    /// Set until the first frame has been dumped for inspection.
    pub first_frame: bool,
}

impl<S: Copy> Renderer<S> {
    pub fn new() -> (r: Self)
        ensures
            r.verts@.len() == 0,
            r.elements@.len() == 0,
            r.uploaded is None,
            r.first_frame,
    {
        Renderer { verts: Vec::new(), elements: Vec::new(), uploaded: None, first_frame: true }
    }

    /// Rebuilds both streams from `meshes`, in order: the vertices of every
    /// mesh, transformed as [`Mesh::verts_transformed`] does, laid end to end,
    /// and every mesh's triangle list shifted by the number of vertices before it.
    pub fn update_meshes<R, Z, T, F>(
        &mut self,
        meshes: &Vec<Mesh<S>>,
        rotate: R,
        scale: Z,
        translate: T,
        flip: F,
    ) where
        R: Fn(&Vec3<S>, Vec3<S>) -> Vec3<S> + Copy,
        Z: Fn(&Vec3<S>, Vec3<S>) -> Vec3<S> + Copy,
        T: Fn(&Vec3<S>, Vec3<S>) -> Vec3<S> + Copy,
        F: Fn(S) -> S + Copy,

        requires
            mergeable(meshes@),
            forall|a: &Vec3<S>, p: Vec3<S>| #[trigger] rotate.requires((a, p)),
            forall|a: &Vec3<S>, p: Vec3<S>| #[trigger] scale.requires((a, p)),
            forall|a: &Vec3<S>, p: Vec3<S>| #[trigger] translate.requires((a, p)),
            forall|y: S| #[trigger] flip.requires((y,)),
        ensures
            final(self).verts@.len() == total_vertices(meshes@),
            forall|k: int, j: int|
                0 <= k < meshes@.len() && 0 <= j < meshes@[k].verts@.len() ==> transformed_vertex(
                    meshes@[k],
                    rotate,
                    scale,
                    translate,
                    flip,
                    #[trigger] meshes@[k].verts@[j],
                    final(self).verts@[vertex_offset(meshes@, k) + j],
                ),
            final(self).elements@ == merged_elements(meshes@),
            final(self).uploaded == old(self).uploaded,
            final(self).first_frame == old(self).first_frame,
    {
        let ghost ms = meshes@;
        let mut verts: Vec<Vert<S>> = Vec::new();
        let ghost mut chunks: Seq<Seq<Vert<S>>> = Seq::empty();
        let mut k: usize = 0;
        while k < meshes.len()
            invariant
                ms == meshes@,
                k <= ms.len(),
                chunks.len() == k,
                verts@ == concat(chunks),
                forall|i: int| 0 <= i < k ==> (#[trigger] chunks[i]).len() == ms[i].verts@.len(),
                forall|i: int, j: int|
                    0 <= i < k && 0 <= j < ms[i].verts@.len() ==> transformed_vertex(
                        ms[i],
                        rotate,
                        scale,
                        translate,
                        flip,
                        #[trigger] ms[i].verts@[j],
                        chunks[i][j],
                    ),
                forall|a: &Vec3<S>, p: Vec3<S>| #[trigger] rotate.requires((a, p)),
                forall|a: &Vec3<S>, p: Vec3<S>| #[trigger] scale.requires((a, p)),
                forall|a: &Vec3<S>, p: Vec3<S>| #[trigger] translate.requires((a, p)),
                forall|y: S| #[trigger] flip.requires((y,)),
            decreases ms.len() - k,
        {
            let mut t = meshes[k].verts_transformed(rotate, scale, translate, flip);
            proof {
                let before = chunks;
                chunks = chunks.push(t@);
                assert(chunks.drop_last() =~= before);
            }
            verts.append(&mut t);
            k += 1;
        }
        proof {
            assert forall|i: int| 0 <= i < chunks.len() implies #[trigger] chunks[i].len() == mesh_verts(ms)[i].len() by {}
            assert forall|kk: int, j: int| 0 <= kk < ms.len() && 0 <= j < ms[kk].verts@.len() implies transformed_vertex(
                ms[kk],
                rotate,
                scale,
                translate,
                flip,
                #[trigger] ms[kk].verts@[j],
                verts@[vertex_offset(ms, kk) + j],
            ) by {
                lemma_part_start_same_lens(chunks, mesh_verts(ms), kk);
                lemma_concat_index(chunks, kk, j);
            }
            lemma_concat_len(chunks);
            lemma_part_start_same_lens(chunks, mesh_verts(ms), ms.len() as int);
        }
        self.verts = verts;
        self.elements = rebase_elements(meshes);
    }

    /// The flat vertex buffer: for each vertex in turn its position, colour,
    /// texture coordinate and normal, eleven values per vertex.
    pub fn vertex_data(&self) -> (r: Vec<S>)
        ensures
            r@ == concat(self.verts@.map_values(|v: Vert<S>| vertex_fields(v))),
            r@.len() == 11 * self.verts@.len(),
    {
        let ghost parts = self.verts@.map_values(|v: Vert<S>| vertex_fields(v));
        let mut out: Vec<S> = Vec::new();
        let mut i: usize = 0;
        while i < self.verts.len()
            invariant
                i <= self.verts@.len(),
                parts == self.verts@.map_values(|v: Vert<S>| vertex_fields(v)),
                out@ == concat(parts.take(i as int)),
                out@.len() == 11 * i,
            decreases self.verts@.len() - i,
        {
            let v = self.verts[i];
            let ghost start = out@;
            out.push(v.pos.x);
            out.push(v.pos.y);
            out.push(v.pos.z);
            out.push(v.color.x);
            out.push(v.color.y);
            out.push(v.color.z);
            out.push(v.uv.x);
            out.push(v.uv.y);
            out.push(v.normal.x);
            out.push(v.normal.y);
            out.push(v.normal.z);
            proof {
                assert(out@ =~= start + vertex_fields(v));
                lemma_concat_take_step(parts, i as int);
            }
            i += 1;
        }
        assert(parts.take(self.verts@.len() as int) =~= parts);
        out
    }

    /// Decides how this frame's streams reach the GPU side, from their sizes
    /// alone, and records those sizes as uploaded.
    pub fn plan_upload(&mut self) -> (r: Upload)
        ensures
            r == (if old(self).uploaded == Some((old(self).verts@.len() as usize, old(self).elements@.len() as usize)) {
                Upload::Rewrite
            } else {
                Upload::Allocate
            }),
            final(self).uploaded == Some((old(self).verts@.len() as usize, old(self).elements@.len() as usize)),
            final(self).verts@ == old(self).verts@,
            final(self).elements@ == old(self).elements@,
            final(self).first_frame == old(self).first_frame,
    {
        let sizes = (self.verts.len(), self.elements.len());
        let r = match self.uploaded {
            Some((v, e)) => {
                if v == sizes.0 && e == sizes.1 {
                    Upload::Rewrite
                } else {
                    Upload::Allocate
                }
            },
            None => Upload::Allocate,
        };
        self.uploaded = Some(sizes);
        r
    }

    /// True exactly once: on the first call after construction.
    pub fn take_first_frame(&mut self) -> (r: bool)
        ensures
            r == old(self).first_frame,
            !final(self).first_frame,
            final(self).verts@ == old(self).verts@,
            final(self).elements@ == old(self).elements@,
            final(self).uploaded == old(self).uploaded,
    {
        let r = self.first_frame;
        self.first_frame = false;
        r
    }
}

/// Whether `meshes` can share one buffer (see [`mergeable`]).
pub fn fits_one_buffer<S: Copy>(meshes: &Vec<Mesh<S>>) -> (r: bool)
    ensures
        r == mergeable(meshes@),
{
    let ghost ms = meshes@;
    let mut total: u64 = 0;
    let mut k: usize = 0;
    while k < meshes.len()
        invariant
            ms == meshes@,
            k <= ms.len(),
            total == vertex_offset(ms, k as int),
            total <= u32::MAX,
            forall|i: int| 0 <= i < k ==> (#[trigger] ms[i]).indices_local(),
        decreases ms.len() - k,
    {
        let mesh = &meshes[k];
        if !mesh.has_local_indices() {
            assert(!ms[k as int].indices_local());
            return false;
        }
        assert(mesh_verts(ms)[k as int] == mesh.verts@);
        if mesh.verts.len() as u64 > u32::MAX as u64 - total {
            proof {
                lemma_part_start_mono(mesh_verts(ms), k as int + 1, ms.len() as int);
            }
            return false;
        }
        total = total + mesh.verts.len() as u64;
        k += 1;
    }
    true
}

/// The merged index stream of `meshes`: each triangle list shifted by the
/// number of vertices of the meshes before it.
pub fn rebase_elements<S: Copy>(meshes: &Vec<Mesh<S>>) -> (r: Vec<u32>)
    requires
        mergeable(meshes@),
    ensures
        r@ == merged_elements(meshes@),
{
    let ghost ms = meshes@;
    let ghost parts = rebased_parts(ms);
    let mut out: Vec<u32> = Vec::new();
    let mut offset: u32 = 0;
    let mut k: usize = 0;
    while k < meshes.len()
        invariant
            ms == meshes@,
            parts == rebased_parts(ms),
            mergeable(ms),
            k <= ms.len(),
            offset == vertex_offset(ms, k as int),
            out@ == concat(parts.take(k as int)),
        decreases ms.len() - k,
    {
        let mesh = &meshes[k];
        proof {
            lemma_part_start_mono(mesh_verts(ms), k as int + 1, ms.len() as int);
            assert(mesh_verts(ms)[k as int] == mesh.verts@);
            assert(ms[k as int].indices_local());
        }
        let ghost target = parts[k as int];
        let mut j: usize = 0;
        while j < mesh.elements.len()
            invariant
                j <= mesh.elements@.len(),
                mesh.indices_local(),
                offset + mesh.verts@.len() <= u32::MAX,
                target == shifted(mesh.elements@, offset as int),
                out@ == concat(parts.take(k as int)) + target.take(j as int),
            decreases mesh.elements@.len() - j,
        {
            assert(mesh.elements@[j as int] < mesh.verts@.len());
            out.push(mesh.elements[j] + offset);
            proof {
                assert(target.take(j as int + 1) =~= target.take(j as int).push(target[j as int]));
            }
            j += 1;
        }
        proof {
            assert(target.take(mesh.elements@.len() as int) =~= target);
            lemma_concat_take_step(parts, k as int);
        }
        offset = offset + mesh.verts.len() as u32;
        k += 1;
    }
    assert(parts.take(ms.len() as int) =~= parts);
    out
}

/// Re-basing is correct: every index of every mesh is re-based as
/// [`rebased_at`] says (local index plus the vertex count of the meshes before
/// it, inside its own mesh's range), and every merged index is below the
/// total vertex count.
pub proof fn lemma_rebasing<S: Copy>(meshes: Seq<Mesh<S>>)
    requires
        mergeable(meshes),
    ensures
        forall|k: int, j: int|
            0 <= k < meshes.len() && 0 <= j < meshes[k].elements@.len() ==> #[trigger] rebased_at(meshes, k, j),
        merged_elements(meshes).len() == element_offset(meshes, meshes.len() as int),
        forall|i: int| 0 <= i < merged_elements(meshes).len() ==> #[trigger] merged_elements(meshes)[i] < total_vertices(meshes),
{
    let parts = rebased_parts(meshes);
    let total = total_vertices(meshes);
    assert forall|i: int| 0 <= i < parts.len() implies #[trigger] parts[i].len() == mesh_elements(meshes)[i].len() by {}
    assert forall|k: int, j: int| 0 <= k < meshes.len() && 0 <= j < meshes[k].elements@.len() implies #[trigger] rebased_at(meshes, k, j) by {
        lemma_part_start_same_lens(parts, mesh_elements(meshes), k);
        lemma_concat_index(parts, k, j);
        lemma_part_start_mono(mesh_verts(meshes), k + 1, meshes.len() as int);
        assert(meshes[k].indices_local());
        assert(mesh_verts(meshes)[k] == meshes[k].verts@);
        assert(parts[k][j] == meshes[k].elements@[j] + vertex_offset(meshes, k));
        assert(vertex_offset(meshes, k + 1) == vertex_offset(meshes, k) + meshes[k].verts@.len());
    }
    lemma_concat_len(parts);
    lemma_part_start_same_lens(parts, mesh_elements(meshes), meshes.len() as int);
    assert forall|k: int, j: int| 0 <= k < parts.len() && 0 <= j < parts[k].len() implies (#[trigger] parts[k][j]) < total by {
        lemma_part_start_mono(mesh_verts(meshes), k + 1, meshes.len() as int);
        assert(meshes[k].indices_local());
        assert(meshes[k].elements@[j] < meshes[k].verts@.len());
        assert(mesh_verts(meshes)[k] == meshes[k].verts@);
    }
    lemma_concat_all(parts, |x: u32| x < total);
}

} // verus!
