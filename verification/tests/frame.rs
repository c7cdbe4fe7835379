use glam::{Mat4, Vec2, Vec3};
use scene_graph::camera::Camera;
use scene_graph::material::{BindingRef, Material, PipelineKey, SimpleMaterial};
use scene_graph::model::Model;
use scene_graph::object::{DataStore, Object};
use scene_graph::renderer::{RenderCmd, RenderError, Renderer};
use scene_graph::scene::Scene;

const VIEWPORT: (f32, f32) = (640.0, 480.0);
const CAM_PARAMS: (f32, f32, f32) = (0.7853982, 0.01, 100.0);

fn viewport() -> Vec2 {
    Vec2::new(VIEWPORT.0, VIEWPORT.1)
}

fn simple_model(mesh: u64) -> Model {
    Model::new(mesh, Material::Simple(SimpleMaterial { texture: 4, normal_map: 5 }))
}

#[test]
fn end_to_end_frame_pushes_expected_uniforms() {
    let mut store = DataStore::new();
    let model_node = Object::new(simple_model(7), &mut store);
    let model_token = model_node.get_data();
    let cam_pos = Vec3::new(-2.0, 0.0, 6.0);
    let camera_node = Object::new(
        Camera::new(Vec3::new(CAM_PARAMS.0, CAM_PARAMS.1, CAM_PARAMS.2)),
        &mut store,
    )
    .with_translation(cam_pos);
    let camera_token = camera_node.get_data();

    let scene = Scene::new(vec![model_node, camera_node]);
    let renderer = Renderer::new(viewport());
    let cmds = renderer.render(&scene, &store).expect("frame must succeed");

    // Traversal order: globals once, then the model node (uniform, draw),
    // then the camera node's uniform.
    assert_eq!(cmds.len(), 4);
    assert_eq!(cmds[0], RenderCmd::UpdateGlobals);

    let model_handle = model_token.try_as_model().unwrap();
    let camera_handle = camera_token.try_as_camera().unwrap();

    match cmds[1] {
        RenderCmd::PushModelUniform { model, uniform } => {
            assert_eq!(model, model_handle);
            // The model sits at the identity; so does its world transform.
            let world = (Mat4::IDENTITY * Mat4::IDENTITY) * Mat4::IDENTITY;
            assert_eq!(uniform.model, Mat4::IDENTITY);
            assert_eq!(uniform.normal, world.inverse().transpose());
        }
        ref other => panic!("expected the model uniform, got {:?}", other),
    }

    match cmds[2] {
        RenderCmd::DrawModel { model, mesh, material } => {
            assert_eq!(model, model_handle);
            assert_eq!(mesh, 7);
            assert_eq!(material.pipeline, PipelineKey::SimpleTextured);
            assert_eq!(material.globals, BindingRef::Globals);
            assert_eq!(material.camera, BindingRef::CameraUniform(camera_handle));
            assert_eq!(material.object, BindingRef::ModelUniform(model_handle));
            assert_eq!(material.material, BindingRef::MaterialData(model_handle));
            let groups = material.setup();
            assert_eq!(
                groups,
                vec![
                    (0, BindingRef::Globals),
                    (1, BindingRef::CameraUniform(camera_handle)),
                    (2, BindingRef::ModelUniform(model_handle)),
                    (3, BindingRef::MaterialData(model_handle)),
                ]
            );
        }
        ref other => panic!("expected the draw, got {:?}", other),
    }

    match cmds[3] {
        RenderCmd::PushCameraUniform { camera, uniform } => {
            assert_eq!(camera, camera_handle);
            assert_eq!(uniform.camera_pos, cam_pos);
            let world = (Mat4::IDENTITY * Mat4::from_translation(cam_pos)) * Mat4::IDENTITY;
            assert_eq!(uniform.view, world.inverse());
            let expected_projection = glam::camera::lh::proj::directx::perspective(
                CAM_PARAMS.0,
                VIEWPORT.0 / VIEWPORT.1,
                CAM_PARAMS.1,
                CAM_PARAMS.2,
            );
            assert_eq!(uniform.projection, expected_projection);
        }
        ref other => panic!("expected the camera uniform, got {:?}", other),
    }
}

#[test]
fn frame_without_camera_draws_no_models() {
    let mut store = DataStore::new();
    let scene = Scene::new(vec![Object::new(simple_model(1), &mut store)]);
    let renderer = Renderer::new(viewport());
    let cmds = renderer.render(&scene, &store).expect("degraded frame still succeeds");
    assert_eq!(cmds.len(), 1);
    assert_eq!(cmds[0], RenderCmd::UpdateGlobals);
}

#[test]
fn stale_model_handle_stops_the_frame() {
    let mut store = DataStore::new();
    let model_node = Object::new(simple_model(1), &mut store);
    let model_token = model_node.get_data();
    let camera_node = Object::new(
        Camera::new(Vec3::new(CAM_PARAMS.0, CAM_PARAMS.1, CAM_PARAMS.2)),
        &mut store,
    );
    let scene = Scene::new(vec![camera_node, model_node]);
    store.remove_model(model_token).unwrap();

    let renderer = Renderer::new(viewport());
    let err = renderer.render(&scene, &store).unwrap_err();
    assert_eq!(err, RenderError::StaleModel(model_token.try_as_model().unwrap()));
}

#[test]
fn stale_camera_handle_stops_the_frame() {
    let mut store = DataStore::new();
    let model_node = Object::new(simple_model(1), &mut store);
    let camera_node = Object::new(
        Camera::new(Vec3::new(CAM_PARAMS.0, CAM_PARAMS.1, CAM_PARAMS.2)),
        &mut store,
    );
    let camera_token = camera_node.get_data();
    // The model comes first in traversal order, so the desynchronized
    // active camera is caught at its binding rather than at the camera node.
    let scene = Scene::new(vec![model_node, camera_node]);
    store.remove_camera(camera_token).unwrap();

    let renderer = Renderer::new(viewport());
    let err = renderer.render(&scene, &store).unwrap_err();
    assert_eq!(err, RenderError::StaleCamera(camera_token.try_as_camera().unwrap()));
}

#[test]
fn resize_changes_the_projection() {
    let mut store = DataStore::new();
    let camera_node = Object::new(
        Camera::new(Vec3::new(CAM_PARAMS.0, CAM_PARAMS.1, CAM_PARAMS.2)),
        &mut store,
    );
    let scene = Scene::new(vec![camera_node]);

    let mut renderer = Renderer::new(viewport());
    let before = renderer.render(&scene, &store).unwrap();
    renderer.resize(Vec2::new(800.0, 480.0));
    let after = renderer.render(&scene, &store).unwrap();

    let (proj_before, proj_after) = match (&before[1], &after[1]) {
        (
            RenderCmd::PushCameraUniform { uniform: a, .. },
            RenderCmd::PushCameraUniform { uniform: b, .. },
        ) => (a.projection, b.projection),
        _ => panic!("expected camera uniforms"),
    };
    let expected_after = glam::camera::lh::proj::directx::perspective(
        CAM_PARAMS.0,
        800.0 / 480.0,
        CAM_PARAMS.1,
        CAM_PARAMS.2,
    );
    assert_ne!(proj_before, proj_after);
    assert_eq!(proj_after, expected_after);
}

#[test]
fn translated_model_gets_exact_model_and_normal_matrices() {
    let mut store = DataStore::new();
    let shift = Vec3::new(3.0, -2.0, 0.5);
    let model_node = Object::new(simple_model(2), &mut store).with_translation(shift);
    let camera_node = Object::new(
        Camera::new(Vec3::new(CAM_PARAMS.0, CAM_PARAMS.1, CAM_PARAMS.2)),
        &mut store,
    );
    let scene = Scene::new(vec![model_node, camera_node]);

    let cmds = Renderer::new(viewport()).render(&scene, &store).unwrap();
    match cmds[1] {
        RenderCmd::PushModelUniform { uniform, .. } => {
            let world = (Mat4::IDENTITY * Mat4::from_translation(shift)) * Mat4::IDENTITY;
            assert_eq!(uniform.model, world);
            assert_eq!(uniform.normal, world.inverse().transpose());
            // For a translation these three matrices all differ, so neither
            // the inverse nor the transpose can be skipped unnoticed.
            assert_ne!(uniform.normal, world);
            assert_ne!(uniform.normal, world.inverse());
        }
        ref other => panic!("expected the model uniform, got {:?}", other),
    }
}

#[test]
fn empty_scene_pushes_only_globals() {
    let store = DataStore::new();
    let scene = Scene::new(Vec::new());
    let cmds = Renderer::new(viewport()).render(&scene, &store).unwrap();
    assert_eq!(cmds.len(), 1);
    assert_eq!(cmds[0], RenderCmd::UpdateGlobals);
}
