//! Per-frame integration of an entity's motion.
//!
//! Which records are read and written, and in which order, is fixed here; the
//! arithmetic on scalars is supplied by the caller:
//! - `accelerate(velocity, acceleration)`: the new linear velocity;
//! - `spin_up(angular_velocity, angular_acceleration)`: the new angular velocity;
//! - `turn(angle, angular_velocity)`: the new accumulated angle (this is where
//!   the frame time scales the angular velocity and the angle is bounded);
//! - `orient(angle)`: the mesh rotation for that angle about the fixed axis;
//! - `advance(translation, velocity)`: the new translation (scaled by the
//!   frame time).

use vstd::prelude::*;

use crate::entity::Entity;
use crate::primitives::Vec3;
use crate::scene::{Scene, SceneView};

verus! {

/// `f` gives at most one result for each argument.
pub open spec fn functional1<X, R, F: Fn(X) -> R>(f: F) -> bool {
    forall|x: X, r1: R, r2: R| #[trigger] f.ensures((x,), r1) && #[trigger] f.ensures((x,), r2) ==> r1 == r2
}

/// `f` gives at most one result for each pair of arguments.
pub open spec fn functional2<X, Y, R, F: Fn(X, Y) -> R>(f: F) -> bool {
    forall|x: X, y: Y, r1: R, r2: R| #[trigger] f.ensures((x, y), r1) && #[trigger] f.ensures((x, y), r2) ==> r1 == r2
}

/// One integration step of entity `e` takes the scene from `before` to
/// `after` and its accumulated angle from `angle` to `angle_after`:
/// 1. with a velocity and an acceleration, the velocity is accelerated;
/// 2. with an angular velocity and an angular acceleration, the angular
///    velocity is spun up; with an angular velocity, the angle is turned by it;
/// 3. with a mesh and an angular velocity, the mesh is oriented at the new angle;
/// 4. with a mesh and a velocity, the mesh is advanced by the new velocity.
/// Nothing else changes.
pub open spec fn integrated<S, A, W, T, O, M>(
    e: Entity,
    before: SceneView<S>,
    angle: S,
    after: SceneView<S>,
    angle_after: S,
    accelerate: A,
    spin_up: W,
    turn: T,
    orient: O,
    advance: M,
) -> bool where
    A: Fn(Vec3<S>, Vec3<S>) -> Vec3<S>,
    W: Fn(S, S) -> S,
    T: Fn(S, S) -> S,
    O: Fn(S) -> Vec3<S>,
    M: Fn(Vec3<S>, Vec3<S>) -> Vec3<S>,
 {
    &&& after.accelerations == before.accelerations
    &&& after.rot_accelerations == before.rot_accelerations
    &&& match (e.velocity, e.acceleration) {
        (Some(v), Some(a)) => {
            &&& after.velocities == before.velocities.update(v as int, after.velocities[v as int])
            &&& accelerate.ensures(
                (before.velocities[v as int].velocity, before.accelerations[a as int].acceleration),
                after.velocities[v as int].velocity,
            )
        },
        _ => after.velocities == before.velocities,
    }
    &&& match (e.rot_velocity, e.rot_acceleration) {
        (Some(w), Some(b)) => {
            &&& after.rot_velocities == before.rot_velocities.update(w as int, after.rot_velocities[w as int])
            &&& spin_up.ensures(
                (before.rot_velocities[w as int], before.rot_accelerations[b as int]),
                after.rot_velocities[w as int],
            )
        },
        _ => after.rot_velocities == before.rot_velocities,
    }
    &&& match e.rot_velocity {
        Some(w) => turn.ensures((angle, after.rot_velocities[w as int]), angle_after),
        None => angle_after == angle,
    }
    &&& match e.mesh {
        Some(m) => {
            let old_mesh = before.meshes[m as int];
            let new_mesh = after.meshes[m as int];
            &&& after.meshes == before.meshes.update(m as int, new_mesh)
            &&& new_mesh.verts == old_mesh.verts
            &&& new_mesh.elements == old_mesh.elements
            &&& new_mesh.scale == old_mesh.scale
            &&& if e.rot_velocity is Some {
                orient.ensures((angle_after,), new_mesh.rotation)
            } else {
                new_mesh.rotation == old_mesh.rotation
            }
            &&& match e.velocity {
                Some(v) => advance.ensures((old_mesh.translation, after.velocities[v as int].velocity), new_mesh.translation),
                None => new_mesh.translation == old_mesh.translation,
            }
        },
        None => after.meshes == before.meshes,
    }
}

/// Advances the motion of `e` by one frame, as [`integrated`] describes.
pub fn integrate<S, A, W, T, O, M>(
    e: &Entity,
    scene: &mut Scene<S>,
    angle: &mut S,
    accelerate: A,
    spin_up: W,
    turn: T,
    orient: O,
    advance: M,
) where
    S: Copy,
    A: Fn(Vec3<S>, Vec3<S>) -> Vec3<S>,
    W: Fn(S, S) -> S,
    T: Fn(S, S) -> S,
    O: Fn(S) -> Vec3<S>,
    M: Fn(Vec3<S>, Vec3<S>) -> Vec3<S>,

    requires
        e.valid_for(old(scene)@),
        forall|v: Vec3<S>, a: Vec3<S>| #[trigger] accelerate.requires((v, a)),
        forall|w: S, b: S| #[trigger] spin_up.requires((w, b)),
        forall|x: S, w: S| #[trigger] turn.requires((x, w)),
        forall|x: S| #[trigger] orient.requires((x,)),
        forall|t: Vec3<S>, v: Vec3<S>| #[trigger] advance.requires((t, v)),
    ensures
        integrated(*e, old(scene)@, *old(angle), final(scene)@, *final(angle), accelerate, spin_up, turn, orient, advance),
{
    match (e.velocity, e.acceleration) {
        (Some(v), Some(a)) => {
            let acceleration = scene.get_acceleration(a).acceleration;
            let velocity = scene.get_velocity_mut(v);
            velocity.velocity = accelerate(velocity.velocity, acceleration);
        },
        _ => {},
    }
    match (e.rot_velocity, e.rot_acceleration) {
        (Some(w), Some(b)) => {
            let spin = *scene.get_rot_acceleration(b);
            let omega = scene.get_rot_velocity_mut(w);
            *omega = spin_up(*omega, spin);
        },
        _ => {},
    }
    match e.rot_velocity {
        Some(w) => {
            let omega = *scene.get_rot_velocity(w);
            *angle = turn(*angle, omega);
        },
        None => {},
    }
    match e.mesh {
        Some(m) => {
            let rotation = match e.rot_velocity {
                Some(_) => Some(orient(*angle)),
                None => None,
            };
            let velocity = match e.velocity {
                Some(v) => Some(scene.get_velocity(v).velocity),
                None => None,
            };
            let mesh = scene.get_mesh_mut(m);
            match rotation {
                Some(r) => {
                    mesh.rotation = r;
                },
                None => {},
            }
            match velocity {
                Some(vel) => {
                    mesh.translation = advance(mesh.translation, vel);
                },
                None => {},
            }
        },
        None => {},
    }
}

/// One step is a function of its inputs: with arithmetic that gives one
/// result per input, the same scene and angle always step to the same scene
/// and angle.
pub proof fn lemma_step_deterministic<S, A, W, T, O, M>(
    e: Entity,
    before: SceneView<S>,
    angle: S,
    first: (SceneView<S>, S),
    second: (SceneView<S>, S),
    accelerate: A,
    spin_up: W,
    turn: T,
    orient: O,
    advance: M,
) where
    A: Fn(Vec3<S>, Vec3<S>) -> Vec3<S>,
    W: Fn(S, S) -> S,
    T: Fn(S, S) -> S,
    O: Fn(S) -> Vec3<S>,
    M: Fn(Vec3<S>, Vec3<S>) -> Vec3<S>,

    requires
        functional2(accelerate),
        functional2(spin_up),
        functional2(turn),
        functional1(orient),
        functional2(advance),
        integrated(e, before, angle, first.0, first.1, accelerate, spin_up, turn, orient, advance),
        integrated(e, before, angle, second.0, second.1, accelerate, spin_up, turn, orient, advance),
    ensures
        first == second,
{
    let (a1, x1) = first;
    let (a2, x2) = second;
    assert(a1.velocities =~= a2.velocities);
    assert(a1.rot_velocities =~= a2.rot_velocities);
    assert(x1 == x2);
    match e.mesh {
        Some(m) => {
            assert(a1.meshes[m as int] == a2.meshes[m as int]);
            assert(a1.meshes =~= a2.meshes);
        },
        None => {},
    }
    assert(a1 =~= a2);
}

/// Integration is deterministic. Two runs of the same number of steps of
/// entity `e`, from the same scene and angle, with the same arithmetic at each
/// step (which carries that step's frame time) giving one result per input,
/// pass through the same scenes and angles: nothing but these inputs decides
/// the outcome.
pub proof fn lemma_integration_deterministic<S, A, W, T, O, M>(
    e: Entity,
    steps: Seq<(A, W, T, O, M)>,
    run1: Seq<(SceneView<S>, S)>,
    run2: Seq<(SceneView<S>, S)>,
) where
    A: Fn(Vec3<S>, Vec3<S>) -> Vec3<S>,
    W: Fn(S, S) -> S,
    T: Fn(S, S) -> S,
    O: Fn(S) -> Vec3<S>,
    M: Fn(Vec3<S>, Vec3<S>) -> Vec3<S>,

    requires
        run1.len() == steps.len() + 1,
        run2.len() == steps.len() + 1,
        run1[0] == run2[0],
        forall|i: int|
            0 <= i < steps.len() ==> {
                let (accelerate, spin_up, turn, orient, advance) = #[trigger] steps[i];
                &&& functional2(accelerate)
                &&& functional2(spin_up)
                &&& functional2(turn)
                &&& functional1(orient)
                &&& functional2(advance)
                &&& integrated(e, run1[i].0, run1[i].1, run1[i + 1].0, run1[i + 1].1, accelerate, spin_up, turn, orient, advance)
                &&& integrated(e, run2[i].0, run2[i].1, run2[i + 1].0, run2[i + 1].1, accelerate, spin_up, turn, orient, advance)
            },
    ensures
        forall|i: int| 0 <= i < run1.len() ==> #[trigger] run1[i] == run2[i],
    decreases steps.len(),
{
    if steps.len() > 0 {
        let n = steps.len() - 1;
        lemma_integration_deterministic(e, steps.drop_last(), run1.drop_last(), run2.drop_last());
        assert(run1.drop_last()[n] == run1[n]);
        assert(run2.drop_last()[n] == run2[n]);
        let (accelerate, spin_up, turn, orient, advance) = steps[n];
        lemma_step_deterministic(e, run1[n].0, run1[n].1, run1[n + 1], run2[n + 1], accelerate, spin_up, turn, orient, advance);
        assert forall|i: int| 0 <= i < run1.len() implies #[trigger] run1[i] == run2[i] by {
            if i <= n {
                assert(run1.drop_last()[i] == run2.drop_last()[i]);
            }
        }
    }
}

} // verus!
