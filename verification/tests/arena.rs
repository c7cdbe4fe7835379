use glam::Vec3;
use scene_graph::camera::Camera;
use scene_graph::material::{Material, SimpleMaterial};
use scene_graph::model::Model;
use scene_graph::object::{DataStore, DataToken};

fn model(mesh: u64) -> Model {
    Model::new(mesh, Material::Simple(SimpleMaterial { texture: mesh, normal_map: mesh }))
}

#[test]
fn inserts_yield_distinct_handles() {
    let mut store = DataStore::new();
    let mut tokens: Vec<DataToken> = Vec::new();
    for i in 0..4u64 {
        tokens.push(store.add_model(model(i)));
    }
    for i in 0..3u64 {
        tokens.push(store.add_camera(Camera::new(Vec3::new(0.1 + i as f32, 0.01, 100.0))));
    }
    for i in 0..tokens.len() {
        for j in (i + 1)..tokens.len() {
            assert_ne!(tokens[i], tokens[j]);
        }
    }
}

#[test]
fn lookup_returns_the_exact_object_inserted() {
    let mut store = DataStore::new();
    let t1 = store.add_model(model(11));
    let t2 = store.add_model(model(22));
    let c1 = store.add_camera(Camera::new(Vec3::new(0.7, 0.5, 50.0)));

    assert_eq!(store.get_model(t1).unwrap().mesh, 11);
    assert_eq!(store.get_model(t2).unwrap().mesh, 22);
    assert_eq!(store.get_camera(c1).unwrap().params, Vec3::new(0.7, 0.5, 50.0));

    // A wrongly tagged lookup fails rather than returning another pool's
    // entry.
    assert!(store.get_model(c1).is_none());
    assert!(store.get_camera(t1).is_none());
    assert!(store.get_model(DataToken::Empty).is_none());
}

#[test]
fn removal_retires_the_handle() {
    let mut store = DataStore::new();
    let t1 = store.add_model(model(1));
    let t2 = store.add_model(model(2));

    let removed = store.remove_model(t1).expect("live handle must remove");
    assert_eq!(removed.mesh, 1);
    assert!(store.get_model(t1).is_none());
    assert_eq!(store.get_model(t2).unwrap().mesh, 2);

    // Removing again through the stale handle is a no-op.
    assert!(store.remove_model(t1).is_none());
}

#[test]
fn recycled_slot_is_a_distinct_generation() {
    let mut store = DataStore::new();
    let t1 = store.add_model(model(1));
    store.remove_model(t1).unwrap();

    // The next insertion recycles the slot index, but under a fresh
    // generation: the old handle stays dead and the two never alias.
    let t2 = store.add_model(model(9));
    assert_ne!(t1, t2);
    let (h1, h2) = (t1.try_as_model().unwrap(), t2.try_as_model().unwrap());
    assert_eq!(h1.index, h2.index);
    assert_ne!(h1.generation, h2.generation);
    assert!(store.get_model(t1).is_none());
    assert_eq!(store.get_model(t2).unwrap().mesh, 9);
}

#[test]
fn pools_are_independent() {
    let mut store = DataStore::new();
    let m = store.add_model(model(3));
    let c = store.add_camera(Camera::new(Vec3::new(0.9, 0.1, 10.0)));
    let (hm, hc) = (m.try_as_model().unwrap(), c.try_as_camera().unwrap());
    // First entries of both pools share the slot index; the pool tag keeps
    // the handles apart.
    assert_eq!(hm.index, hc.index);
    assert_ne!(m, c);
    store.remove_camera(c).unwrap();
    assert_eq!(store.get_model(m).unwrap().mesh, 3);
}
