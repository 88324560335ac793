//! The frame pipeline: per-frame state, phase ordering, and the decisions of
//! the run loop.
//!
//! The engine owns the camera, the instance grid, the light, and the render
//! target description. A frame is always the same three phases in the same
//! order — input, update, render — and the phase field makes skipping or
//! reordering a phase unprovable at the call site. `update` refreshes the
//! GPU-visible snapshots (the camera uniform and the light), and
//! `render_plan` fixes the exact ordered sequence of pipeline binds and draw
//! calls that the unverified GPU shell must submit. The shell performs the
//! device work and feeds back plain events and outcomes; the mappings from
//! those to actions are verified here.

use vstd::prelude::*;

verus! {

use crate::camera::{transform_pose_spec, view_proj_spec, Camera, CameraUniform, Key};
use crate::instance::{grid_instance_spec, make_instances, Instance};
use crate::light::{advanced_spec, light_wf, LightUniform};
use crate::vec3::Vec3Fx;

/// Cells per grid side.
pub const GRID_SIZE: u32 = 10;

/// Distance between neighbouring cells, milliunits.
pub const GRID_SPACING: i64 = 3000;

/// The light's orbit step per frame, deci-degrees.
pub const LIGHT_STEP_DD: i64 = 60;

/// Depth is cleared to the far plane: 1.0, scaled.
pub const CLEAR_DEPTH: i64 = 1000;

/// The background color the pass clears to, scaled by `SCALE`.
pub const CLEAR_RED: i64 = 100;

/// See `CLEAR_RED`.
pub const CLEAR_GREEN: i64 = 200;

/// See `CLEAR_RED`.
pub const CLEAR_BLUE: i64 = 300;

/// The render target: the configured surface size and the size of the depth
/// texture that must match it.
#[derive(Debug, Clone, Copy, PartialEq, Eq, Structural)]
pub struct RenderTarget {
    pub width: u32,
    pub height: u32,
    pub depth_width: u32,
    pub depth_height: u32,
}

/// The depth texture matches the surface, and neither dimension is zero.
pub open spec fn target_wf(t: RenderTarget) -> bool {
    &&& t.depth_width == t.width
    &&& t.depth_height == t.height
    &&& t.width >= 1
    &&& t.height >= 1
}

/// The three per-frame phases, in their fixed order.
#[derive(Debug, Clone, Copy, PartialEq, Eq, Structural)]
pub enum Phase {
    AwaitingInput,
    AwaitingUpdate,
    AwaitingRender,
}

/// One step of the frame's draw sequence, in submission order.
#[derive(Debug, Clone, Copy, PartialEq, Eq, Structural)]
pub enum DrawStep {
    /// Bind the shared per-instance transform buffer.
    BindInstanceBuffer,
    /// Switch to the light-marker pipeline.
    UseLightPipeline,
    /// Draw the light marker once, with camera and light uniforms bound.
    DrawLightModel,
    /// Switch to the main textured pipeline.
    UseMainPipeline,
    /// Draw the primary model instanced over the whole grid.
    DrawModelInstanced { instances: u32 },
}

/// The ways acquiring or presenting a frame can fail, as the frame loop
/// distinguishes them.
#[derive(Debug, Clone, Copy, PartialEq, Eq, Structural)]
pub enum SurfaceErrorKind {
    /// Acquisition timed out: transient.
    Timeout,
    /// The surface no longer matches the window: transient.
    Outdated,
    /// The surface was lost and must be reconfigured.
    Lost,
    /// The device is out of memory: fatal.
    OutOfMemory,
}

/// What the run loop does with a render outcome.
#[derive(Debug, Clone, Copy, PartialEq, Eq, Structural)]
pub enum FrameAction {
    /// The frame presented; carry on.
    Proceed,
    /// Reconfigure the render target at its current size, then carry on.
    Reconfigure,
    /// Fatal: leave the run loop.
    Quit,
    /// Log the failure, drop this frame, and carry on.
    SkipFrame,
}

/// An event the windowing layer hands to the run loop.
#[derive(Debug, Clone, Copy, PartialEq, Eq, Structural)]
pub enum LoopEvent {
    QuitRequested,
    WindowResized { width: u32, height: u32 },
    EscapePressed,
    Other,
}

/// What the run loop does with an event.
#[derive(Debug, Clone, Copy, PartialEq, Eq, Structural)]
pub enum EventAction {
    StopRunning,
    ResizeTo { width: u32, height: u32 },
    ToggleRelativeMouse,
    Ignore,
}

/// The run loop's event policy: quit stops the loop, a resize reconfigures
/// to the new size, escape toggles relative mouse look, anything else is
/// ignored.
pub fn handle_event(ev: &LoopEvent) -> (r: EventAction)
    ensures
        r == (match *ev {
            LoopEvent::QuitRequested => EventAction::StopRunning,
            LoopEvent::WindowResized { width, height } => (EventAction::ResizeTo {
                width,
                height,
            }),
            LoopEvent::EscapePressed => EventAction::ToggleRelativeMouse,
            LoopEvent::Other => EventAction::Ignore,
        }),
{
    match *ev {
        LoopEvent::QuitRequested => EventAction::StopRunning,
        LoopEvent::WindowResized { width, height } => EventAction::ResizeTo { width, height },
        LoopEvent::EscapePressed => EventAction::ToggleRelativeMouse,
        LoopEvent::Other => EventAction::Ignore,
    }
}

/// The run loop's error policy: success proceeds, a lost surface is
/// reconfigured and retried, out of memory is fatal, and the transient
/// failures drop one frame.
pub fn frame_action(outcome: &Result<(), SurfaceErrorKind>) -> (r: FrameAction)
    ensures
        r == (match *outcome {
            Ok(()) => FrameAction::Proceed,
            Err(SurfaceErrorKind::Lost) => FrameAction::Reconfigure,
            Err(SurfaceErrorKind::OutOfMemory) => FrameAction::Quit,
            Err(SurfaceErrorKind::Timeout) => FrameAction::SkipFrame,
            Err(SurfaceErrorKind::Outdated) => FrameAction::SkipFrame,
        }),
{
    match *outcome {
        Ok(()) => FrameAction::Proceed,
        Err(SurfaceErrorKind::Lost) => FrameAction::Reconfigure,
        Err(SurfaceErrorKind::OutOfMemory) => FrameAction::Quit,
        Err(SurfaceErrorKind::Timeout) => FrameAction::SkipFrame,
        Err(SurfaceErrorKind::Outdated) => FrameAction::SkipFrame,
    }
}

/// The engine: all per-frame state the GPU shell mirrors into device memory.
pub struct Engine {
    pub camera: Camera,
    pub camera_uniform: CameraUniform,
    pub instances: Vec<Instance>,
    pub light: LightUniform,
    pub light_step: i64,
    pub target: RenderTarget,
    pub frame_number: usize,
    pub phase: Phase,
}

impl Engine {
    /// Well-formedness of the whole engine.
    pub open spec fn wf(&self) -> bool {
        &&& self.camera.wf()
        &&& light_wf(self.light@)
        &&& 0 <= self.light_step <= 3600
        &&& self.instances@.len() <= 1_000_000
        &&& target_wf(self.target)
    }

    /// Build the engine for a surface of the given pixel size: the fixed
    /// starting pose, the instance grid, the light, and a fresh camera
    /// snapshot, awaiting the first input phase.
    pub fn new(width: u32, height: u32) -> (r: Engine)
        requires
            1 <= width <= 16384,
            1 <= height <= 16384,
            height <= 1000 * width,
        ensures
            r.wf(),
            r.camera.pose() == (crate::camera::CameraPose {
                position: (crate::vec3::Vec3V { x: 0, y: 0, z: -2000 }),
                yaw: 0,
                pitch: 0,
            }),
            r.camera.aspect == (width as int * 1000) / (height as int),
            r.camera.fovy == 450,
            r.camera.znear == 100,
            r.camera.zfar == 100_000,
            r.camera.distance == 100,
            r.camera.sensitivity == 10,
            r.camera_uniform.view_pos == r.camera.position,
            r.camera_uniform.view_proj@ == view_proj_spec(
                r.camera.pose(),
                r.camera.aspect as int,
                450,
                100,
                100_000,
            ),
            r.instances@.len() == 100,
            forall|i: int|
                0 <= i < 100 ==> (#[trigger] r.instances@[i])@ == grid_instance_spec(10, 3000, i),
            r.light@ == (crate::light::LightV {
                base: (crate::vec3::Vec3V { x: 2000, y: 2000, z: 2000 }),
                phase: 0,
                color: (crate::vec3::Vec3V { x: 1000, y: 1000, z: 1000 }),
            }),
            r.light_step == LIGHT_STEP_DD,
            r.target == (RenderTarget { width, height, depth_width: width, depth_height: height }),
            r.frame_number == 0,
            r.phase == Phase::AwaitingInput,
    {
        proof {
            vstd::arithmetic::div_mod::lemma_div_is_ordered(
                height as int,
                width as int * 1000,
                height as int,
            );
            vstd::arithmetic::div_mod::lemma_div_by_self(height as int);
            crate::fixed::lemma_quot_bound(width as int * 1000, height as int, 16_384_000);
        }
        let aspect = crate::fixed::div_nn((width as i64) * 1000, height as i64);
        let camera = Camera::new(
            Vec3Fx::new(0, 0, -2000),
            0,
            0,
            aspect,
            450,
            100,
            100_000,
            100,
            10,
        );
        let mut camera_uniform = CameraUniform::new();
        camera_uniform.update_view_proj(&camera);
        let instances = make_instances(GRID_SIZE, GRID_SPACING);
        let light = LightUniform::new(Vec3Fx::new(2000, 2000, 2000), Vec3Fx::new(1000, 1000, 1000));
        Engine {
            camera,
            camera_uniform,
            instances,
            light,
            light_step: LIGHT_STEP_DD,
            target: RenderTarget { width, height, depth_width: width, depth_height: height },
            frame_number: 0,
            phase: Phase::AwaitingInput,
        }
    }

    /// Reconfigure the render target. A zero dimension is a no-op: nothing,
    /// in particular the depth texture, changes. Otherwise the surface and
    /// the depth texture take the new size together; calling this twice with
    /// the same size leaves the same state.
    pub fn resize(&mut self, new_size: (u32, u32))
        ensures
            (new_size.0 == 0 || new_size.1 == 0) ==> *final(self) == *old(self),
            (new_size.0 > 0 && new_size.1 > 0) ==> *final(self) == (Engine {
                target: (RenderTarget {
                    width: new_size.0,
                    height: new_size.1,
                    depth_width: new_size.0,
                    depth_height: new_size.1,
                }),
                ..*old(self)
            }),
            old(self).wf() ==> final(self).wf(),
    {
        if new_size.0 > 0 && new_size.1 > 0 {
            self.target = RenderTarget {
                width: new_size.0,
                height: new_size.1,
                depth_width: new_size.0,
                depth_height: new_size.1,
            };
        }
    }

    /// The input phase: one frame of keys and mouse, delegated to the
    /// camera. No other state moves.
    pub fn input(&mut self, keys: &Vec<Key>, mouse_dx: i64, mouse_dy: i64, relative_mouse: bool)
        requires
            old(self).wf(),
            old(self).phase == Phase::AwaitingInput,
            -1_000_000 <= mouse_dx <= 1_000_000,
            -1_000_000 <= mouse_dy <= 1_000_000,
        ensures
            final(self).wf(),
            final(self).camera.pose() == transform_pose_spec(
                old(self).camera.pose(),
                keys@,
                mouse_dx as int,
                mouse_dy as int,
                relative_mouse,
                old(self).camera.distance as int,
                old(self).camera.sensitivity as int,
            ),
            final(self).phase == Phase::AwaitingUpdate,
            *final(self) == (Engine {
                camera: final(self).camera,
                phase: Phase::AwaitingUpdate,
                ..*old(self)
            }),
            final(self).camera.aspect == old(self).camera.aspect,
            final(self).camera.fovy == old(self).camera.fovy,
            final(self).camera.znear == old(self).camera.znear,
            final(self).camera.zfar == old(self).camera.zfar,
            final(self).camera.distance == old(self).camera.distance,
            final(self).camera.sensitivity == old(self).camera.sensitivity,
    {
        self.camera.transform_camera(keys, mouse_dx, mouse_dy, relative_mouse);
        self.phase = Phase::AwaitingUpdate;
    }

    /// The update phase: refresh the camera snapshot from the camera and
    /// advance the light's orbit by the fixed step. The shell writes the
    /// refreshed snapshot and light into their GPU buffers after this.
    pub fn update(&mut self)
        requires
            old(self).wf(),
            old(self).phase == Phase::AwaitingUpdate,
        ensures
            final(self).wf(),
            final(self).camera_uniform.view_pos == old(self).camera.position,
            final(self).camera_uniform.view_proj@ == view_proj_spec(
                old(self).camera.pose(),
                old(self).camera.aspect as int,
                old(self).camera.fovy as int,
                old(self).camera.znear as int,
                old(self).camera.zfar as int,
            ),
            final(self).light@ == advanced_spec(old(self).light@, old(self).light_step as int),
            final(self).phase == Phase::AwaitingRender,
            *final(self) == (Engine {
                camera_uniform: final(self).camera_uniform,
                light: final(self).light,
                phase: Phase::AwaitingRender,
                ..*old(self)
            }),
    {
        self.camera_uniform.update_view_proj(&self.camera);
        self.light.advance(self.light_step);
        self.phase = Phase::AwaitingRender;
    }

    /// The render phase: the frame count moves on and the exact draw sequence
    /// is fixed — bind the instance buffer once, draw the light marker under
    /// the light pipeline, then draw the primary model instanced over the
    /// whole grid under the main pipeline. The shell submits these steps in
    /// this order against an acquired image and reports the outcome to
    /// `frame_action`.
    pub fn render_plan(&mut self) -> (r: Vec<DrawStep>)
        requires
            old(self).wf(),
            old(self).phase == Phase::AwaitingRender,
            old(self).frame_number < usize::MAX,
        ensures
            final(self).wf(),
            final(self).phase == Phase::AwaitingInput,
            final(self).frame_number == old(self).frame_number + 1,
            *final(self) == (Engine {
                frame_number: final(self).frame_number,
                phase: Phase::AwaitingInput,
                ..*old(self)
            }),
            r@ =~= seq![
                DrawStep::BindInstanceBuffer,
                DrawStep::UseLightPipeline,
                DrawStep::DrawLightModel,
                DrawStep::UseMainPipeline,
                (DrawStep::DrawModelInstanced { instances: old(self).instances@.len() as u32 }),
            ],
    {
        let count = self.instances.len() as u32;
        self.frame_number = self.frame_number + 1;
        self.phase = Phase::AwaitingInput;
        let mut plan: Vec<DrawStep> = Vec::new();
        plan.push(DrawStep::BindInstanceBuffer);
        plan.push(DrawStep::UseLightPipeline);
        plan.push(DrawStep::DrawLightModel);
        plan.push(DrawStep::UseMainPipeline);
        plan.push(DrawStep::DrawModelInstanced { instances: count });
        plan
    }
}

} // verus!
