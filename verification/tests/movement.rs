use glam::{Mat4, Vec2, Vec3};
use scene_graph::camera::Camera;
use scene_graph::object::{DataStore, Object};
use scene_graph::physics::{PhysicsController, UserInput};
use scene_graph::scene::Scene;

#[test]
fn forward_alone_is_the_unscaled_forward_axis() {
    let input = UserInput { move_forward: true, ..UserInput::default() };
    assert_eq!(input.direction(), Vec3::new(0.0, 0.0, -1.0));
}

#[test]
fn each_flag_maps_to_its_fixed_axis() {
    let cases: [(UserInput, Vec3); 5] = [
        (UserInput { move_backward: true, ..UserInput::default() }, Vec3::new(0.0, 0.0, 1.0)),
        (UserInput { move_left: true, ..UserInput::default() }, Vec3::new(1.0, 0.0, 0.0)),
        (UserInput { move_right: true, ..UserInput::default() }, Vec3::new(-1.0, 0.0, 0.0)),
        (UserInput { move_up: true, ..UserInput::default() }, Vec3::new(0.0, -1.0, 0.0)),
        (UserInput { move_down: true, ..UserInput::default() }, Vec3::new(0.0, 1.0, 0.0)),
    ];
    for (input, expected) in cases {
        assert_eq!(input.direction(), expected);
    }
}

#[test]
fn combined_flags_give_a_unit_diagonal() {
    let input = UserInput { move_forward: true, move_right: true, ..UserInput::default() };
    let dir = input.direction();
    assert!((dir.length() - 1.0).abs() < 1e-6);
    let expected = Vec3::new(-1.0, 0.0, -1.0).normalize();
    assert!((dir - expected).length() < 1e-6);
}

#[test]
fn cancelling_flags_give_the_zero_vector() {
    let input = UserInput { move_forward: true, move_backward: true, ..UserInput::default() };
    assert_eq!(input.direction(), Vec3::ZERO);
}

#[test]
fn movement_rebuilds_the_camera_transform() {
    let mut store = DataStore::new();
    let pos = Vec3::new(-2.0, 0.0, 6.0);
    let cam = Object::new(Camera::new(Vec3::new(0.8, 0.01, 100.0)), &mut store)
        .with_translation(pos);
    let mut scene = Scene::new(vec![cam]);

    let look = Vec2::new(0.3, -0.1);
    let input = UserInput { look, ..UserInput::default() };
    PhysicsController::default().update(&mut scene, input);

    let cam_local_before = Mat4::IDENTITY * Mat4::from_translation(pos);
    let kept_pos = cam_local_before.to_scale_rotation_translation().2;
    let expected = ((Mat4::from_rotation_y(-look.x) * Mat4::from_rotation_x(-look.y))
        * Mat4::from_translation(kept_pos))
        * Mat4::IDENTITY;
    let node = scene.get_camera_object().expect("camera still designated");
    assert_eq!(node.get_local_xform(), expected);
}

#[test]
fn movement_without_camera_leaves_the_scene_alone() {
    let mut scene = Scene::new(vec![Object::empty()]);
    let before = scene.root.get_all();
    let input = UserInput { look: Vec2::new(5.0, 5.0), move_forward: true, ..UserInput::default() };
    PhysicsController::default().update(&mut scene, input);
    let after = scene.root.get_all();
    assert_eq!(before.len(), after.len());
    for (x, y) in before.iter().zip(after.iter()) {
        assert_eq!(x.1, y.1);
    }
}
