use flappy::components::{Acceleration, Component, Mesh, RotVelocity, Velocity};
use flappy::entity::Entity;
use flappy::primitives::{Vec2, Vec3, Vert};
use flappy::scene::Scene;

fn v3(x: f32, y: f32, z: f32) -> Vec3<f32> {
    Vec3 { x, y, z }
}

fn vert(x: f32) -> Vert<f32> {
    Vert::new(v3(x, 0.0, 0.0), v3(0.0, 0.0, 0.0), Vec2 { x: 0.0, y: 0.0 }, v3(0.0, 0.0, 1.0))
}

fn mesh(n: usize) -> Mesh<f32> {
    let mut verts = Vec::new();
    for i in 0..n {
        verts.push(vert(i as f32));
    }
    Mesh {
        verts,
        elements: vec![0, 1, 2],
        translation: v3(0.0, 0.0, 0.0),
        rotation: v3(0.0, 0.0, 0.0),
        scale: v3(1.0, 1.0, 1.0),
    }
}

#[test]
fn fresh_entity_has_no_velocity() {
    let mut scene: Scene<f32> = Scene::new();
    let e = Entity::new();
    assert!(e.get_velocity(&mut scene).is_none());
    assert!(e.get_mesh(&mut scene).is_none());
    assert!(e.get_acceleration(&mut scene).is_none());
    assert!(e.get_rot_velocity(&mut scene).is_none());
    assert!(e.get_rot_acceleration(&mut scene).is_none());
    assert_eq!(e.get_velocity_index(), None);
    assert_eq!(e.get_mesh_index(), None);
}

#[test]
fn indices_are_unique_and_stay_valid() {
    let mut scene: Scene<f32> = Scene::new();
    let mut a = Entity::new();
    let mut b = Entity::new();
    let mut c = Entity::new();
    assert_eq!(a.add_velocity(&mut scene, v3(1.0, 0.0, 0.0)), Ok(0));
    assert_eq!(b.add_velocity(&mut scene, v3(2.0, 0.0, 0.0)), Ok(1));
    assert_eq!(b.add_mesh(&mut scene, mesh(3)), Ok(0));
    assert_eq!(c.add_velocity(&mut scene, v3(3.0, 0.0, 0.0)), Ok(2));
    assert_eq!(a.add_mesh(&mut scene, mesh(4)), Ok(1));
    assert_eq!(a.get_velocity_index(), Some(0));
    assert_eq!(b.get_velocity_index(), Some(1));
    assert_eq!(c.get_velocity_index(), Some(2));
    assert_eq!(a.get_velocity(&mut scene).unwrap().velocity, v3(1.0, 0.0, 0.0));
    assert_eq!(b.get_velocity(&mut scene).unwrap().velocity, v3(2.0, 0.0, 0.0));
    assert_eq!(c.get_velocity(&mut scene).unwrap().velocity, v3(3.0, 0.0, 0.0));
    assert_eq!(b.get_mesh(&mut scene).unwrap().verts.len(), 3);
    assert_eq!(a.get_mesh(&mut scene).unwrap().verts.len(), 4);
    assert_eq!(scene.velocities.len(), 3);
    assert_eq!(scene.meshes.len(), 2);
}

#[test]
fn second_add_is_refused_and_keeps_the_record() {
    let mut scene: Scene<f32> = Scene::new();
    let mut e = Entity::new();
    assert_eq!(e.add_velocity(&mut scene, v3(1.0, 2.0, 3.0)), Ok(0));
    assert_eq!(e.add_velocity(&mut scene, v3(9.0, 9.0, 9.0)), Err(Component::Velocity(0)));
    assert_eq!(scene.velocities.len(), 1);
    assert_eq!(e.get_velocity(&mut scene).unwrap().velocity, v3(1.0, 2.0, 3.0));
    assert_eq!(e.add_rot_acceleration(&mut scene, 0.5), Ok(0));
    assert_eq!(e.add_rot_acceleration(&mut scene, 0.7), Err(Component::RotAcceleration(0)));
    assert_eq!(scene.rot_accelerations, vec![0.5]);
    assert_eq!(e.add_mesh(&mut scene, mesh(3)), Ok(0));
    assert_eq!(e.add_mesh(&mut scene, mesh(5)), Err(Component::Mesh(0)));
    assert_eq!(scene.meshes.len(), 1);
    assert_eq!(e.add_acceleration(&mut scene, v3(0.0, 1.0, 0.0)), Ok(0));
    assert_eq!(e.add_acceleration(&mut scene, v3(0.0, 2.0, 0.0)), Err(Component::Acceleration(0)));
    assert_eq!(e.add_rot_velocity(&mut scene, 0.1), Ok(0));
    assert_eq!(e.add_rot_velocity(&mut scene, 0.2), Err(Component::RotVelocity(0)));
    assert_eq!(scene.accelerations.len(), 1);
    assert_eq!(scene.rot_velocities, vec![0.1]);
}

#[test]
fn angular_slots_index_their_own_arrays() {
    let mut scene: Scene<f32> = Scene::new();
    let mut a = Entity::new();
    let mut b = Entity::new();
    a.add_velocity(&mut scene, v3(0.0, 0.0, 2.0)).unwrap();
    a.add_acceleration(&mut scene, v3(0.0, 0.0, -1.0)).unwrap();
    b.add_velocity(&mut scene, v3(5.0, 0.0, 0.0)).unwrap();
    assert_eq!(a.add_rot_velocity(&mut scene, 0.25), Ok(0));
    assert_eq!(a.add_rot_acceleration(&mut scene, 0.125), Ok(0));
    assert_eq!(b.add_rot_velocity(&mut scene, 0.75), Ok(1));
    assert_eq!(*a.get_rot_velocity(&mut scene).unwrap(), 0.25);
    assert_eq!(*b.get_rot_velocity(&mut scene).unwrap(), 0.75);
    assert_eq!(*a.get_rot_acceleration(&mut scene).unwrap(), 0.125);
    assert_eq!(a.get_acceleration_index(), Some(0));
    assert_eq!(a.get_rot_velocity_index(), Some(0));
    assert_eq!(a.get_rot_acceleration_index(), Some(0));
    assert_eq!(b.get_rot_acceleration_index(), None);
}

#[test]
fn records_are_mutated_through_the_entity() {
    let mut scene: Scene<f32> = Scene::new();
    let mut player = Entity::new();
    let mut other = Entity::new();
    other.add_velocity(&mut scene, v3(7.0, 0.0, 0.0)).unwrap();
    player.add_velocity(&mut scene, v3(0.0, 0.0, 2.0)).unwrap();
    player.add_acceleration(&mut scene, v3(0.0, 0.0, -0.5)).unwrap();
    let acc = player.get_acceleration(&mut scene).unwrap().acceleration;
    let vel = player.get_velocity(&mut scene).unwrap();
    vel.velocity.z += acc.z;
    assert_eq!(player.get_velocity(&mut scene).unwrap().velocity.z, 1.5);
    assert_eq!(other.get_velocity(&mut scene).unwrap().velocity.x, 7.0);
    player.add_mesh(&mut scene, mesh(3)).unwrap();
    player.get_mesh(&mut scene).unwrap().translation.x += 4.0;
    assert_eq!(scene.meshes[0].translation.x, 4.0);
}

#[test]
fn scene_push_and_get() {
    let mut scene: Scene<f32> = Scene::new();
    assert_eq!(scene.push_velocity(Velocity::new(v3(1.0, 1.0, 1.0))), 0);
    assert_eq!(scene.push_velocity(Velocity::new(v3(2.0, 2.0, 2.0))), 1);
    assert_eq!(scene.push_acceleration(Acceleration { acceleration: v3(3.0, 0.0, 0.0) }), 0);
    assert_eq!(scene.push_rot_velocity(0.5), 0);
    assert_eq!(scene.push_rot_acceleration(0.25), 0);
    assert_eq!(scene.push_mesh(mesh(3)), 0);
    assert_eq!(scene.get_velocity(1).velocity, v3(2.0, 2.0, 2.0));
    assert_eq!(scene.get_acceleration(0).acceleration.x, 3.0);
    assert_eq!(*scene.get_rot_velocity(0), 0.5);
    assert_eq!(*scene.get_rot_acceleration(0), 0.25);
    assert_eq!(scene.get_mesh(0).verts.len(), 3);
    scene.get_velocity_mut(0).velocity.y = 8.0;
    *scene.get_rot_velocity_mut(0) = 1.5;
    scene.get_mesh_mut(0).scale.x = 2.0;
    scene.get_acceleration_mut(0).acceleration.z = 6.0;
    *scene.get_rot_acceleration_mut(0) = 0.75;
    assert_eq!(scene.velocities[0].velocity.y, 8.0);
    assert_eq!(scene.rot_velocities, vec![1.5]);
    assert_eq!(scene.meshes[0].scale.x, 2.0);
    assert_eq!(scene.accelerations[0].acceleration.z, 6.0);
    assert_eq!(scene.rot_accelerations, vec![0.75]);
    assert_eq!(RotVelocity::new(v3(0.0, 1.0, 0.0)).velocity, v3(0.0, 1.0, 0.0));
}

#[test]
fn validity_against_a_scene() {
    let mut big: Scene<f32> = Scene::new();
    let small: Scene<f32> = Scene::new();
    let mut e = Entity::new();
    assert!(e.is_valid_for(&small));
    big.push_velocity(Velocity::new(v3(0.0, 0.0, 0.0)));
    e.add_velocity(&mut big, v3(1.0, 0.0, 0.0)).unwrap();
    assert_eq!(e.get_velocity_index(), Some(1));
    assert!(e.is_valid_for(&big));
    assert!(!e.is_valid_for(&small));
}
