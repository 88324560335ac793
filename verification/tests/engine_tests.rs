use gamezap::camera::Key;
use gamezap::engine::{
    frame_action, handle_event, DrawStep, Engine, EventAction, FrameAction, LoopEvent, Phase,
    RenderTarget, SurfaceErrorKind,
};
use gamezap::vec3::Vec3Fx;

#[test]
fn a_new_engine_holds_the_starting_scene() {
    let e = Engine::new(800, 600);
    assert_eq!(e.camera.position, Vec3Fx::new(0, 0, -2000));
    assert_eq!(e.camera.yaw, 0);
    assert_eq!(e.camera.pitch, 0);
    assert_eq!(e.camera.aspect, 1333);
    assert_eq!(e.camera.fovy, 450);
    assert_eq!(e.instances.len(), 100);
    assert_eq!(e.light.base, Vec3Fx::new(2000, 2000, 2000));
    assert_eq!(e.light.phase, 0);
    assert_eq!(e.frame_number, 0);
    assert_eq!(
        e.target,
        RenderTarget { width: 800, height: 600, depth_width: 800, depth_height: 600 }
    );
    assert_eq!(e.camera_uniform.view_pos, e.camera.position);
}

#[test]
fn resize_with_a_zero_dimension_changes_nothing() {
    let mut e = Engine::new(800, 600);
    let target_before = e.target;
    e.resize((0, 500));
    assert_eq!(e.target, target_before);
    e.resize((500, 0));
    assert_eq!(e.target, target_before);
    e.resize((0, 0));
    assert_eq!(e.target, target_before);
}

#[test]
fn resize_recreates_the_depth_texture_at_the_new_size() {
    let mut e = Engine::new(800, 600);
    e.resize((1024, 768));
    assert_eq!(
        e.target,
        RenderTarget { width: 1024, height: 768, depth_width: 1024, depth_height: 768 }
    );
    // Resizing again with the same size is idempotent.
    let after_first = e.target;
    e.resize((1024, 768));
    assert_eq!(e.target, after_first);
}

#[test]
fn a_frame_runs_input_update_render_in_order() {
    let mut e = Engine::new(800, 600);
    assert_eq!(e.phase, Phase::AwaitingInput);
    e.input(&vec![Key::Forward], 0, 0, true);
    assert_eq!(e.phase, Phase::AwaitingUpdate);
    assert_eq!(e.camera.position, Vec3Fx::new(0, 0, -1900));
    e.update();
    assert_eq!(e.phase, Phase::AwaitingRender);
    let plan = e.render_plan();
    assert_eq!(e.phase, Phase::AwaitingInput);
    assert_eq!(e.frame_number, 1);
    assert_eq!(
        plan,
        vec![
            DrawStep::BindInstanceBuffer,
            DrawStep::UseLightPipeline,
            DrawStep::DrawLightModel,
            DrawStep::UseMainPipeline,
            DrawStep::DrawModelInstanced { instances: 100 },
        ]
    );
}

#[test]
fn update_refreshes_the_snapshots() {
    let mut e = Engine::new(800, 600);
    e.input(&vec![], 40, 0, true);
    let camera_before = e.camera;
    e.update();
    assert_eq!(e.camera_uniform.view_pos, camera_before.position);
    assert_eq!(e.camera_uniform.view_proj, camera_before.build_view_projection_matrix());
    // The light advanced by the fixed per-frame step.
    assert_eq!(e.light.phase, 60);
    e.render_plan();
    e.input(&vec![], 0, 0, true);
    e.update();
    assert_eq!(e.light.phase, 120);
}

#[test]
fn surface_outcomes_map_to_their_actions() {
    assert_eq!(frame_action(&Ok(())), FrameAction::Proceed);
    assert_eq!(frame_action(&Err(SurfaceErrorKind::Lost)), FrameAction::Reconfigure);
    assert_eq!(frame_action(&Err(SurfaceErrorKind::OutOfMemory)), FrameAction::Quit);
    assert_eq!(frame_action(&Err(SurfaceErrorKind::Timeout)), FrameAction::SkipFrame);
    assert_eq!(frame_action(&Err(SurfaceErrorKind::Outdated)), FrameAction::SkipFrame);
}

#[test]
fn loop_events_map_to_their_actions() {
    assert_eq!(handle_event(&LoopEvent::QuitRequested), EventAction::StopRunning);
    assert_eq!(
        handle_event(&LoopEvent::WindowResized { width: 640, height: 480 }),
        EventAction::ResizeTo { width: 640, height: 480 }
    );
    assert_eq!(handle_event(&LoopEvent::EscapePressed), EventAction::ToggleRelativeMouse);
    assert_eq!(handle_event(&LoopEvent::Other), EventAction::Ignore);
}
