//! The renderer's host-side state: camera and world, frame clock and input.

use crate::clock::FrameClock;
use crate::controller::{
    is_notch, moved, settled, translate, translation_step, turn, turned, ComputeDispatch,
    Controller, INITIAL_DEPTH, ROTATION_STEP,
};
use crate::input::{
    close_requested, geometry_changed, lemma_has_event_step, HostEvent, InputState, ObservedEvent,
    PointerDelta, NUDGE_STEP,
};
use crate::pipeline::{FrameAction, FrameError, FrameEvent, FramePipeline};
use crate::units::{clamp_i32, clamp_i64, POSITION_UNIT};
use vstd::prelude::*;

verus! {

/// Everything the renderer keeps between frames on the host.
pub struct FractalApp {
    pub controller_pipeline: Controller,
    pub clock: FrameClock,
    pub input_state: InputState,
}

/// How a frame starts.
#[derive(Clone, Copy, Debug, PartialEq, Eq, Structural)]
pub struct FrameStart {
    /// What the host has to do first.
    pub action: FrameAction,
    /// Whether the window is to change between full screen and windowed.
    pub toggle_full_screen: bool,
}

impl FractalApp {
    /// The camera after the camera-update step of a frame.
    ///
    /// Every movement flag that is set moves the camera by one translation
    /// step along its axis: forward and backward along the third axis, right
    /// and left along the first, up and down along the second. The flags act
    /// one after the other and nothing is normalised, so two flags on two
    /// axes move the camera along both. A pointer accumulator that stands at
    /// exactly one nudge turns the camera by one rotation step, the first
    /// accumulator about the first axis and the second about the third.
    pub open spec fn camera_after_inputs(self) -> Controller {
        let input = self.input_state;
        let dt = self.clock.dt;
        let camera = self.controller_pipeline;
        Controller {
            position: [
                moved(camera.position[0], dt, input.move_speed, input.right, input.left, true),
                moved(camera.position[1], dt, input.move_speed, input.up, input.down, false),
                moved(
                    camera.position[2],
                    dt,
                    input.move_speed,
                    input.forward,
                    input.backward,
                    false,
                ),
            ],
            rotation: [
                turned(camera.rotation[0], input.mouse_pos.x),
                camera.rotation[1],
                turned(camera.rotation[2], input.mouse_pos.y),
            ],
            ..camera
        }
    }

    /// The input after the camera-update step of a frame: an accumulator
    /// that turned the camera is back at zero, all else is kept.
    pub open spec fn input_after_inputs(self) -> InputState {
        InputState {
            mouse_pos: PointerDelta {
                x: settled(self.input_state.mouse_pos.x),
                y: settled(self.input_state.mouse_pos.y),
            },
            ..self.input_state
        }
    }

    /// The state after the camera-update step of a frame: the camera moved
    /// and turned, the accumulators settled, the clock untouched.
    pub open spec fn after_inputs(self) -> FractalApp {
        FractalApp {
            controller_pipeline: self.camera_after_inputs(),
            input_state: self.input_after_inputs(),
            ..self
        }
    }

    /// How a frame starts over a surface of `width` by `height` pixels when
    /// the frame pipeline stands at `pipeline`: with the action that the
    /// pipeline asks for and, unless the frame is dropped, with the
    /// full-screen request of the input.
    pub open spec fn frame_start(
        self,
        pipeline: FramePipeline,
        width: u32,
        height: u32,
    ) -> FrameStart {
        let action = pipeline.action_for(FrameEvent::Begin { width, height });
        FrameStart {
            action,
            toggle_full_screen: action != FrameAction::SkipFrame
                && self.input_state.toggle_full_screen,
        }
    }

    /// The state after the frame that `action` ended, `elapsed`
    /// microseconds after the frame before it: the input is reset after
    /// a completed and after an abandoned frame, and only a completed frame
    /// is counted by the clock. No other action ends a frame.
    pub open spec fn after_frame(self, action: FrameAction, elapsed: u32) -> FractalApp {
        match action {
            FrameAction::CompleteFrame => FractalApp {
                input_state: self.input_state.after_reset(),
                clock: self.clock.after_tick(elapsed),
                ..self
            },
            FrameAction::AbandonFrame => FractalApp {
                input_state: self.input_state.after_reset(),
                ..self
            },
            _ => self,
        }
    }

    /// The state before the first frame, over a freshly generated world.
    pub fn new(render_distance: u32, window_size: [u32; 2]) -> (app: FractalApp)
        ensures
            app.controller_pipeline.world.well_formed(),
            app.controller_pipeline.position == [
                0i64,
                0i64,
                (INITIAL_DEPTH * POSITION_UNIT) as i64,
            ],
            app.controller_pipeline.rotation == [0i32, 0i32, 0i32],
            app.controller_pipeline.render_distance == render_distance,
            app.clock == FrameClock::initial(),
            app.input_state == InputState::initial(window_size),
    {
        FractalApp::with_controller(Controller::new(render_distance), window_size)
    }

    /// The state before the first frame, around a given camera and world.
    pub fn with_controller(controller: Controller, window_size: [u32; 2]) -> (app: FractalApp)
        ensures
            app.controller_pipeline == controller,
            app.clock == FrameClock::initial(),
            app.input_state == InputState::initial(window_size),
    {
        FractalApp {
            controller_pipeline: controller,
            clock: FrameClock::new(),
            input_state: InputState::new(window_size),
        }
    }

    /// The compute dispatch of this frame for a target image of `width` by
    /// `height` pixels.
    pub fn compute(&self, width: u32, height: u32) -> (dispatch: ComputeDispatch)
        ensures
            dispatch == self.controller_pipeline.dispatch_for(width, height),
    {
        self.controller_pipeline.compute(width, height)
    }

    /// Whether the renderer should go on: it should until the quit key is
    /// down.
    pub fn is_running(&self) -> (running: bool)
        ensures
            running == !self.input_state.should_quit,
    {
        !self.input_state.should_quit
    }

    /// The average frame rate, in thousandths of a frame per second.
    pub fn avg_fps(&self) -> (rate: u64)
        ensures
            rate == self.clock.avg_fps,
    {
        self.clock.avg_fps()
    }

    /// The duration of the last frame, in thousandths of a millisecond.
    pub fn dt(&self) -> (millis: u32)
        ensures
            millis == self.clock.dt,
    {
        self.clock.dt()
    }

    /// Counts a completed frame that took `elapsed` microseconds.
    pub fn update_time(&mut self, elapsed: u32)
        ensures
            final(self).clock == old(self).clock.after_tick(elapsed),
            final(self).controller_pipeline == old(self).controller_pipeline,
            final(self).input_state == old(self).input_state,
    {
        self.clock.tick(elapsed);
    }

    /// Applies one event of the host window to the input state.
    pub fn handle_input(&mut self, window_size: [u32; 2], event: &HostEvent)
        ensures
            final(self).input_state == old(self).input_state.after_event(window_size, *event),
            final(self).controller_pipeline == old(self).controller_pipeline,
            final(self).clock == old(self).clock,
    {
        self.input_state.handle_input(window_size, event);
    }

    /// Resets the input state at the end of a frame.
    pub fn reset_input_state(&mut self)
        ensures
            final(self).input_state == old(self).input_state.after_reset(),
            final(self).controller_pipeline == old(self).controller_pipeline,
            final(self).clock == old(self).clock,
    {
        self.input_state.reset()
    }

    /// Closes the frame that `action` ended, `elapsed` microseconds after
    /// the frame before it. Says whether the frame was counted.
    pub fn finish_frame(&mut self, action: FrameAction, elapsed: u32) -> (counted: bool)
        ensures
            *final(self) == old(self).after_frame(action, elapsed),
            counted == (action == FrameAction::CompleteFrame),
    {
        match action {
            FrameAction::CompleteFrame => {
                self.reset_input_state();
                self.update_time(elapsed);
                true
            },
            FrameAction::AbandonFrame => {
                self.reset_input_state();
                false
            },
            _ => false,
        }
    }

    /// The camera-update step: moves and turns the camera as the input of
    /// this frame asks, for the duration of the last frame. Says whether the
    /// window is to change between full screen and windowed.
    pub fn update_state_after_inputs(&mut self) -> (toggle_full_screen: bool)
        ensures
            *final(self) == old(self).after_inputs(),
            toggle_full_screen == old(self).input_state.toggle_full_screen,
    {
        let dt: u32 = self.clock.dt;
        let speed: i32 = self.input_state.move_speed;
        if self.input_state.forward {
            self.controller_pipeline.position[2] = translate(
                self.controller_pipeline.position[2],
                dt,
                speed,
                true,
            );
        }
        if self.input_state.backward {
            self.controller_pipeline.position[2] = translate(
                self.controller_pipeline.position[2],
                dt,
                speed,
                false,
            );
        }
        if self.input_state.left {
            self.controller_pipeline.position[0] = translate(
                self.controller_pipeline.position[0],
                dt,
                speed,
                false,
            );
        }
        if self.input_state.right {
            self.controller_pipeline.position[0] = translate(
                self.controller_pipeline.position[0],
                dt,
                speed,
                true,
            );
        }
        if self.input_state.up {
            self.controller_pipeline.position[1] = translate(
                self.controller_pipeline.position[1],
                dt,
                speed,
                true,
            );
        }
        if self.input_state.down {
            self.controller_pipeline.position[1] = translate(
                self.controller_pipeline.position[1],
                dt,
                speed,
                false,
            );
        }
        let x: i32 = self.input_state.mouse_pos.x;
        let y: i32 = self.input_state.mouse_pos.y;
        self.controller_pipeline.rotation[0] = turn(self.controller_pipeline.rotation[0], x);
        self.controller_pipeline.rotation[2] = turn(self.controller_pipeline.rotation[2], y);
        if x == NUDGE_STEP || x == -NUDGE_STEP {
            self.input_state.mouse_pos.x = 0;
        }
        if y == NUDGE_STEP || y == -NUDGE_STEP {
            self.input_state.mouse_pos.y = 0;
        }
        proof {
            let camera = old(self).camera_after_inputs();
            assert(self.controller_pipeline.position =~= camera.position);
            assert(self.controller_pipeline.rotation =~= camera.rotation);
        }
        self.input_state.toggle_full_screen
    }
}

/// Starts a frame over a surface of `width` by `height` pixels. A surface
/// without extent drops the frame and leaves the state as it is. Over any
/// other surface the camera-update step is taken, once, before anything is
/// acquired or dispatched, and the frame pipeline says what to do first. A
/// pipeline that stands in the middle of a frame refuses, and nothing
/// changes.
pub fn begin_frame(
    app: &mut FractalApp,
    pipeline: &mut FramePipeline,
    width: u32,
    height: u32,
) -> (result: Result<FrameStart, FrameError>)
    ensures
        old(pipeline).accepts(FrameEvent::Begin { width, height }) ==> {
            &&& result == Ok::<FrameStart, FrameError>(
                old(app).frame_start(*old(pipeline), width, height),
            )
            &&& *final(pipeline) == old(pipeline).after(FrameEvent::Begin { width, height })
            &&& *final(app) == if width == 0 || height == 0 {
                *old(app)
            } else {
                old(app).after_inputs()
            }
        },
        !old(pipeline).accepts(FrameEvent::Begin { width, height }) ==> {
            &&& result == Err::<FrameStart, FrameError>(FrameError::OutOfSequence)
            &&& *final(pipeline) == *old(pipeline)
            &&& *final(app) == *old(app)
        },
{
    match pipeline.step(FrameEvent::Begin { width, height }) {
        Ok(FrameAction::SkipFrame) => Ok(
            FrameStart { action: FrameAction::SkipFrame, toggle_full_screen: false },
        ),
        Ok(action) => {
            let toggle_full_screen = app.update_state_after_inputs();
            Ok(FrameStart { action, toggle_full_screen })
        },
        Err(error) => Err(error),
    }
}

/// With the forward flag alone the camera moves along the third axis only,
/// by five times the time of the last frame times the move speed. With the
/// forward and the right flag it moves by that much along the third and along
/// the first axis: the two do not share the step between them.
pub proof fn lemma_flags_move_their_own_axes(app: FractalApp)
    requires
        app.input_state.forward,
        !app.input_state.backward,
        !app.input_state.left,
        !app.input_state.up,
        !app.input_state.down,
    ensures
        app.camera_after_inputs().position[2] == clamp_i64(
            app.controller_pipeline.position[2] + translation_step(
                app.clock.dt,
                app.input_state.move_speed,
            ),
        ),
        app.camera_after_inputs().position[1] == app.controller_pipeline.position[1],
        !app.input_state.right ==> app.camera_after_inputs().position[0]
            == app.controller_pipeline.position[0],
        app.input_state.right ==> app.camera_after_inputs().position[0] == clamp_i64(
            app.controller_pipeline.position[0] + translation_step(
                app.clock.dt,
                app.input_state.move_speed,
            ),
        ),
{
}

/// Only an accumulator at exactly one nudge turns the camera: by one
/// rotation step on at one nudge up and by one back at one nudge down, after
/// which the accumulator is at zero. At any other value the camera keeps its
/// rotation and the accumulator its value. The first accumulator turns about
/// the first axis and the second about the third; the second axis never
/// turns.
pub proof fn lemma_only_a_notch_turns(app: FractalApp)
    ensures
        ({
            let before = app.controller_pipeline.rotation;
            let after = app.camera_after_inputs().rotation;
            let x = app.input_state.mouse_pos.x;
            let y = app.input_state.mouse_pos.y;
            let x_after = app.input_after_inputs().mouse_pos.x;
            let y_after = app.input_after_inputs().mouse_pos.y;
            &&& x == NUDGE_STEP ==> after[0] == clamp_i32(before[0] + ROTATION_STEP) && x_after == 0
            &&& x == -NUDGE_STEP ==> after[0] == clamp_i32(before[0] - ROTATION_STEP) && x_after
                == 0
            &&& !is_notch(x) ==> after[0] == before[0] && x_after == x
            &&& after[1] == before[1]
            &&& y == NUDGE_STEP ==> after[2] == clamp_i32(before[2] + ROTATION_STEP) && y_after == 0
            &&& y == -NUDGE_STEP ==> after[2] == clamp_i32(before[2] - ROTATION_STEP) && y_after
                == 0
            &&& !is_notch(y) ==> after[2] == before[2] && y_after == y
        }),
{
}

/// Takes in the events that the host window delivered in one iteration of
/// the host loop, in order. Every event goes to the input state; an event
/// that changes the geometry of the surface also marks the surface for
/// recreation. Says whether the renderer should go on: it should unless the
/// window was asked to close or the quit key is down at the end.
pub fn handle_events(
    app: &mut FractalApp,
    pipeline: &mut FramePipeline,
    events: &Vec<ObservedEvent>,
) -> (running: bool)
    ensures
        final(app).input_state == old(app).input_state.after_events(events@),
        final(app).controller_pipeline == old(app).controller_pipeline,
        final(app).clock == old(app).clock,
        *final(pipeline) == if geometry_changed(events@) {
            old(pipeline).after_resize()
        } else {
            *old(pipeline)
        },
        running == (!close_requested(events@) && !final(app).input_state.should_quit),
{
    let mut is_running = true;
    for i in 0..events.len()
        invariant
            app.input_state == old(app).input_state.after_events(events@.take(i as int)),
            app.controller_pipeline == old(app).controller_pipeline,
            app.clock == old(app).clock,
            *pipeline == if geometry_changed(events@.take(i as int)) {
                old(pipeline).after_resize()
            } else {
                *old(pipeline)
            },
            is_running == !close_requested(events@.take(i as int)),
    {
        let observed = &events[i];
        proof {
            assert(events@.take(i + 1).drop_last() =~= events@.take(i as int));
            lemma_has_event_step(events@, i as int, HostEvent::CloseRequested);
            lemma_has_event_step(events@, i as int, HostEvent::Resized);
        }
        match observed.event {
            HostEvent::CloseRequested => is_running = false,
            HostEvent::Resized => pipeline.notify_resized(),
            _ => (),
        }
        app.handle_input(observed.window_size, &observed.event);
    }
    assert(events@.take(events@.len() as int) =~= events@);
    is_running && app.is_running()
}

} // verus!
