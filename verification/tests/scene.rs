use glam::Vec3;
use scene_graph::camera::Camera;
use scene_graph::material::{Material, SimpleMaterial};
use scene_graph::model::Model;
use scene_graph::object::{DataStore, DataToken, Object};
use scene_graph::scene::Scene;

fn model_node(store: &mut DataStore) -> Object {
    Object::new(
        Model::new(0, Material::Simple(SimpleMaterial { texture: 0, normal_map: 0 })),
        store,
    )
}

fn camera_node(store: &mut DataStore, fov: f32) -> Object {
    Object::new(Camera::new(Vec3::new(fov, 0.01, 100.0)), store)
}

#[test]
fn scene_without_camera_signals_absence() {
    let mut store = DataStore::new();
    let scene = Scene::new(vec![model_node(&mut store), Object::empty()]);
    assert!(scene.active_camera().is_none());
}

#[test]
fn discovery_picks_the_preorder_first_camera() {
    let mut store = DataStore::new();
    let c1 = camera_node(&mut store, 0.5);
    let c2 = camera_node(&mut store, 0.9);
    let c1_token = c1.get_data();

    // c1 sits deeper but earlier in pre-order than the top-level c2.
    let mut first_subtree = model_node(&mut store);
    first_subtree.add_child(c1);

    let scene = Scene::new(vec![first_subtree, c2]);
    assert_eq!(scene.active_camera(), Some(c1_token));
    assert!(matches!(c1_token, DataToken::Camera(_)));
}

#[test]
fn set_camera_accepts_only_camera_nodes() {
    let mut store = DataStore::new();
    let c1 = camera_node(&mut store, 0.5);
    let c2 = camera_node(&mut store, 0.9);
    let c2_token = c2.get_data();
    let mut scene = Scene::new(vec![c1, model_node(&mut store), c2]);

    // Override to the later camera by its path.
    assert!(scene.set_camera(vec![2]));
    assert_eq!(scene.active_camera(), Some(c2_token));

    // A model node or a dangling path is rejected and the designation kept.
    assert!(!scene.set_camera(vec![1]));
    assert!(!scene.set_camera(vec![7]));
    assert_eq!(scene.active_camera(), Some(c2_token));
}

#[test]
fn camera_accessors_follow_the_designation() {
    let mut store = DataStore::new();
    let cam = camera_node(&mut store, 0.5)
        .with_translation(Vec3::new(-2.0, 0.0, 6.0));
    let scene = Scene::new(vec![model_node(&mut store), cam]);

    let node = scene.get_camera_object().expect("camera was discovered");
    assert_eq!(
        node.get_local_xform(),
        glam::Mat4::IDENTITY * glam::Mat4::from_translation(Vec3::new(-2.0, 0.0, 6.0))
    );
    // The camera sits directly under the root, whose local is the identity.
    assert_eq!(scene.camera_parent_xform(), Some(glam::Mat4::IDENTITY));
}

#[test]
fn stale_camera_path_reports_absence() {
    let mut store = DataStore::new();
    let cam = camera_node(&mut store, 0.5);
    let mut scene = Scene::new(vec![cam]);
    // Editing the tree under the scene's feet leaves a dangling path; every
    // reader checks it against the tree instead of trusting it.
    scene.root = Object::empty();
    assert!(scene.active_camera().is_none());
    assert!(scene.get_camera_object().is_none());
    assert!(!scene.set_camera_xform(glam::Mat4::IDENTITY));
}
