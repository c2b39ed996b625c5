use flappy::components::Mesh;
use flappy::primitives::{Cube, Quad, Tri, Vec2, Vec3, Vert};
use flappy::renderer::{fits_one_buffer, rebase_elements, Renderer, Upload};

fn v3(x: f32, y: f32, z: f32) -> Vec3<f32> {
    Vec3 { x, y, z }
}

fn corner(x: f32, y: f32, u: f32, v: f32) -> Vert<f32> {
    Vert::new(v3(x, y, 0.0), v3(0.5, 0.25, 0.125), Vec2 { x: u, y: v }, v3(0.0, 0.0, 1.0))
}

fn quad_mesh() -> Mesh<f32> {
    let q = Quad::new([
        corner(-1.0, -1.0, 0.0, 0.0),
        corner(1.0, -1.0, 1.0, 0.0),
        corner(1.0, 1.0, 1.0, 1.0),
        corner(-1.0, 1.0, 0.0, 0.25),
    ]);
    Mesh {
        verts: q.verts().to_vec(),
        elements: q.elements().to_vec(),
        translation: v3(0.0, 0.0, 0.0),
        rotation: v3(0.0, 0.0, 0.0),
        scale: v3(1.0, 1.0, 1.0),
    }
}

fn keep(_: &Vec3<f32>, p: Vec3<f32>) -> Vec3<f32> {
    p
}

fn add(a: &Vec3<f32>, p: Vec3<f32>) -> Vec3<f32> {
    v3(p.x + a.x, p.y + a.y, p.z + a.z)
}

fn mul(a: &Vec3<f32>, p: Vec3<f32>) -> Vec3<f32> {
    v3(p.x * a.x, p.y * a.y, p.z * a.z)
}

fn flip(y: f32) -> f32 {
    1.0 - y
}

#[test]
fn two_quads_merge_into_one_buffer() {
    let meshes = vec![quad_mesh(), quad_mesh()];
    assert!(fits_one_buffer(&meshes));
    let mut r: Renderer<f32> = Renderer::new();
    r.update_meshes(&meshes, keep, keep, keep, flip);
    assert_eq!(r.verts.len(), 8);
    assert_eq!(r.elements, vec![0, 1, 2, 0, 2, 3, 4, 5, 6, 4, 6, 7]);
    assert_eq!(rebase_elements(&meshes), vec![0, 1, 2, 0, 2, 3, 4, 5, 6, 4, 6, 7]);
}

#[test]
fn rebasing_uses_vertex_counts_of_earlier_meshes() {
    let mut tri = quad_mesh();
    tri.verts.truncate(3);
    tri.elements = vec![2, 1, 0];
    let meshes = vec![tri, quad_mesh(), quad_mesh()];
    assert_eq!(
        rebase_elements(&meshes),
        vec![2, 1, 0, 3, 4, 5, 3, 5, 6, 7, 8, 9, 7, 9, 10]
    );
    let mut r: Renderer<f32> = Renderer::new();
    r.update_meshes(&meshes, keep, keep, keep, flip);
    assert_eq!(r.verts.len(), 11);
    assert!(r.elements.iter().all(|&e| (e as usize) < r.verts.len()));
}

#[test]
fn empty_scene_gives_empty_buffers() {
    let meshes: Vec<Mesh<f32>> = Vec::new();
    assert!(fits_one_buffer(&meshes));
    let mut r: Renderer<f32> = Renderer::new();
    r.update_meshes(&meshes, keep, keep, keep, flip);
    assert!(r.verts.is_empty());
    assert!(r.elements.is_empty());
    assert!(r.vertex_data().is_empty());
}

#[test]
fn non_local_index_is_rejected() {
    let mut m = quad_mesh();
    assert!(m.has_local_indices());
    m.elements.push(4);
    assert!(!m.has_local_indices());
    assert!(!fits_one_buffer(&vec![quad_mesh(), m]));
}

#[test]
fn transform_is_rotate_then_scale_then_translate() {
    let mut m = quad_mesh();
    m.verts = vec![corner(0.0, 0.0, 0.0, 0.0)];
    m.elements = vec![0];
    m.rotation = v3(1.0, 0.0, 0.0);
    m.scale = v3(2.0, 3.0, 4.0);
    m.translation = v3(10.0, 20.0, 30.0);
    // The rotation stand-in adds, the scale multiplies, the translation adds:
    // T(S(R(0))) = (1*2 + 10, 0*3 + 20, 0*4 + 30).
    let out = m.verts_transformed(add, mul, add, flip);
    assert_eq!(out.len(), 1);
    assert_eq!(out[0].pos, v3(12.0, 20.0, 30.0));
    assert_ne!(out[0].pos, v3(11.0, 20.0, 30.0));
    assert_eq!(out[0].color, m.verts[0].color);
    assert_eq!(out[0].normal, m.verts[0].normal);
}

#[test]
fn uv_flip_does_not_accumulate() {
    let m = quad_mesh();
    let first = m.verts_transformed(keep, keep, keep, flip);
    let second = m.verts_transformed(keep, keep, keep, flip);
    for i in 0..4 {
        assert_eq!(first[i].uv, second[i].uv);
        assert_eq!(first[i].uv.x, m.verts[i].uv.x);
        assert_eq!(first[i].uv.y, 1.0 - m.verts[i].uv.y);
    }
    assert_eq!(first[3].uv.y, 0.75);
    assert_eq!(m.verts[3].uv.y, 0.25);
    assert_eq!(m.verts(), quad_mesh().verts);
}

#[test]
fn vertex_data_has_eleven_values_per_vertex() {
    let mut r: Renderer<f32> = Renderer::new();
    r.verts = vec![
        Vert::new(v3(1.0, 2.0, 3.0), v3(4.0, 5.0, 6.0), Vec2 { x: 7.0, y: 8.0 }, v3(9.0, 10.0, 11.0)),
        Vert::new(v3(12.0, 13.0, 14.0), v3(15.0, 16.0, 17.0), Vec2 { x: 18.0, y: 19.0 }, v3(20.0, 21.0, 22.0)),
    ];
    let data = r.vertex_data();
    let expected: Vec<f32> = (1..=22).map(|i| i as f32).collect();
    assert_eq!(data, expected);
}

#[test]
fn upload_reallocates_only_when_sizes_change() {
    let mut r: Renderer<f32> = Renderer::new();
    let one = vec![quad_mesh()];
    let two = vec![quad_mesh(), quad_mesh()];
    r.update_meshes(&one, keep, keep, keep, flip);
    assert_eq!(r.plan_upload(), Upload::Allocate);
    assert_eq!(r.uploaded, Some((4, 6)));
    r.update_meshes(&one, add, keep, keep, flip);
    assert_eq!(r.plan_upload(), Upload::Rewrite);
    r.update_meshes(&two, keep, keep, keep, flip);
    assert_eq!(r.plan_upload(), Upload::Allocate);
    assert_eq!(r.plan_upload(), Upload::Rewrite);
    assert_eq!(r.uploaded, Some((8, 12)));
}

#[test]
fn first_frame_is_reported_once() {
    let mut r: Renderer<f32> = Renderer::new();
    assert!(r.take_first_frame());
    assert!(!r.take_first_frame());
    assert!(!r.take_first_frame());
}

#[test]
fn quad_and_triangle_lists() {
    let q = quad_mesh();
    assert_eq!(q.elements, vec![0, 1, 2, 0, 2, 3]);
    let t = Tri::new([corner(0.0, 0.0, 0.0, 0.0), corner(1.0, 0.0, 0.0, 0.0), corner(0.0, 1.0, 0.0, 0.0)]);
    assert_eq!(t.elements(), [0, 1, 2]);
    assert_eq!(t.verts[2].pos, v3(0.0, 1.0, 0.0));
}

#[test]
fn cube_faces_are_laid_end_to_end() {
    let mut quads = Vec::new();
    for f in 0..6 {
        let x = f as f32;
        quads.push(Quad::new([
            corner(x, 0.0, 0.0, 0.0),
            corner(x, 1.0, 0.0, 0.0),
            corner(x, 2.0, 0.0, 0.0),
            corner(x, 3.0, 0.0, 0.0),
        ]));
    }
    let cube = Cube { quads: [quads[0], quads[1], quads[2], quads[3], quads[4], quads[5]] };
    let verts = cube.verts();
    assert_eq!(verts.len(), 24);
    for (i, v) in verts.iter().enumerate() {
        assert_eq!(v.pos, v3((i / 4) as f32, (i % 4) as f32, 0.0));
    }
    let elements = cube.elements();
    assert_eq!(elements.len(), 36);
    assert_eq!(&elements[0..6], &[0, 1, 2, 0, 2, 3]);
    assert_eq!(&elements[6..12], &[4, 5, 6, 4, 6, 7]);
    assert_eq!(&elements[30..36], &[20, 21, 22, 20, 22, 23]);
}
