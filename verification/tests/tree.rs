use glam::{Mat4, Quat, Vec3};
use scene_graph::material::{Material, SimpleMaterial};
use scene_graph::model::Model;
use scene_graph::object::{DataStore, DataToken, Object};

fn leaf(store: &mut DataStore, mesh: u64) -> Object {
    Object::new(
        Model::new(mesh, Material::Simple(SimpleMaterial { texture: 1, normal_map: 2 })),
        store,
    )
}

#[test]
fn flatten_orders_nodes_depth_first() {
    let mut store = DataStore::new();
    let t_a = Mat4::from_translation(Vec3::new(1.0, 0.0, 0.0));
    let t_b = Mat4::from_translation(Vec3::new(0.0, 2.0, 0.0));
    let t_c = Mat4::from_scale(Vec3::new(2.0, 2.0, 2.0));

    let mut a = leaf(&mut store, 10);
    a.set_xform(t_a);
    let mut grandchild = leaf(&mut store, 30);
    grandchild.set_xform(t_c);
    let mut b = leaf(&mut store, 20);
    b.set_xform(t_b);
    b.add_child(grandchild);

    let mut root = Object::empty();
    root.add_child(a);
    root.add_child(b);

    let all = root.get_all();
    assert_eq!(all.len(), 4);

    // Depth-first pre-order: root, a, b, grandchild of b.
    assert!(matches!(all[0].0, DataToken::Empty));
    assert!(matches!(all[1].0, DataToken::Model(_)));
    assert!(matches!(all[2].0, DataToken::Model(_)));
    assert!(matches!(all[3].0, DataToken::Model(_)));

    // World transforms compose each local onto the parent's world.
    let w_root = Mat4::IDENTITY;
    let w_a = t_a * w_root;
    let w_b = t_b * w_root;
    let w_c = t_c * w_b;
    assert_eq!(all[0].1, w_root);
    assert_eq!(all[1].1, w_a);
    assert_eq!(all[2].1, w_b);
    assert_eq!(all[3].1, w_c);
}

#[test]
fn flatten_is_restartable() {
    let mut store = DataStore::new();
    let mut root = Object::empty();
    root.add_child(leaf(&mut store, 1));
    let first = root.get_all();
    let second = root.get_all();
    assert_eq!(first.len(), second.len());
    for (x, y) in first.iter().zip(second.iter()) {
        assert_eq!(x.0, y.0);
        assert_eq!(x.1, y.1);
    }
}

#[test]
fn filters_split_models_and_cameras() {
    let mut store = DataStore::new();
    let cam = Object::new(scene_graph::camera::Camera::new(Vec3::new(0.8, 0.01, 100.0)), &mut store);
    let mut root = Object::empty();
    root.add_child(leaf(&mut store, 1));
    root.add_child(cam);
    root.add_child(leaf(&mut store, 2));

    let models = root.get_all_models();
    let cameras = root.get_all_cameras();
    assert_eq!(models.len(), 2);
    assert_eq!(cameras.len(), 1);
    assert!(models.iter().all(|e| matches!(e.0, DataToken::Model(_))));
    assert!(cameras.iter().all(|e| matches!(e.0, DataToken::Camera(_))));
}

#[test]
fn set_identity_reads_back_identity() {
    let mut node = Object::empty();
    node.set_xform(Mat4::IDENTITY);
    assert_eq!(node.get_local_xform(), Mat4::IDENTITY);
}

#[test]
fn translate_then_reset_yields_identity() {
    for v in [
        Vec3::new(1.0, 2.0, 3.0),
        Vec3::new(-7.5, 0.25, 9.0),
        Vec3::ZERO,
    ] {
        let mut node = Object::empty();
        node.translate(v);
        node.reset();
        assert_eq!(node.get_local_xform(), Mat4::IDENTITY);
    }
}

#[test]
fn mutators_right_multiply_elementary_transforms() {
    let v = Vec3::new(3.0, -1.0, 0.5);
    let q = Quat::from_rotation_x(-std::f32::consts::FRAC_PI_2);
    let s = Vec3::new(2.0, 4.0, 8.0);

    let node = Object::empty()
        .with_translation(v)
        .with_rotation(q)
        .with_scale(s);
    let expected = ((Mat4::IDENTITY * Mat4::from_translation(v)) * Mat4::from_quat(q))
        * Mat4::from_scale(s);
    assert_eq!(node.get_local_xform(), expected);
}

#[test]
fn children_are_reachable_by_index_and_path() {
    let mut store = DataStore::new();
    let mut root = Object::empty();
    let mut mid = leaf(&mut store, 5);
    let mut deep = leaf(&mut store, 6);
    deep.set_xform(Mat4::from_translation(Vec3::new(0.0, 0.0, 4.0)));
    mid.add_child(deep);
    root.add_child(mid);

    assert!(root.get_child(0).is_some());
    assert!(root.get_child(1).is_none());

    let node = root.node_at_path(&vec![0, 0]).expect("path should resolve");
    assert_eq!(node.get_local_xform(), Mat4::from_translation(Vec3::new(0.0, 0.0, 4.0)));
    assert!(root.node_at_path(&vec![0, 1]).is_none());

    let moved = Mat4::from_translation(Vec3::new(9.0, 9.0, 9.0));
    assert!(root.set_xform_at(&vec![0, 0], moved));
    assert_eq!(root.node_at_path(&vec![0, 0]).unwrap().get_local_xform(), moved);
    // The sibling structure and the other locals are untouched.
    assert_eq!(root.node_at_path(&vec![0]).unwrap().get_local_xform(), Mat4::IDENTITY);
    assert!(!root.set_xform_at(&vec![3], moved));
}

#[test]
fn with_children_replaces_the_child_list() {
    let mut store = DataStore::new();
    let a = leaf(&mut store, 1);
    let b = leaf(&mut store, 2);
    let root = Object::empty().with_children(vec![a, b]);
    assert_eq!(root.get_all().len(), 3);

    let c = leaf(&mut store, 3);
    let root = root.with_children(vec![c]);
    assert_eq!(root.get_all().len(), 2);
}

#[test]
fn token_accessors_report_their_tag() {
    let mut store = DataStore::new();
    let m = store.add_model(Model::new(
        1,
        Material::Simple(SimpleMaterial { texture: 0, normal_map: 0 }),
    ));
    assert!(m.try_as_model().is_some());
    assert!(m.try_as_camera().is_none());
    assert!(DataToken::Empty.try_as_model().is_none());
    assert!(DataToken::Empty.try_as_camera().is_none());
}
