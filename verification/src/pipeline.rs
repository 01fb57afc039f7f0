//! The frame state machine: acquire, dispatch, composite, present.
//!
//! The machine decides; the host acts. The host reports what happened as a
//! `FrameEvent`, the machine answers with the `FrameAction` to perform next,
//! and the host reports again once that action is done. Completion handles
//! stay with the host: an action names the handles it has to wait on.

use vstd::prelude::*;

verus! {

/// Where a frame stands.
#[derive(Clone, Copy, Debug, PartialEq, Eq, Structural)]
pub enum FrameState {
    /// Between two frames.
    Idle,
    /// Waiting for the next presentable image, after a recreation of the
    /// surface if one is needed.
    Acquire,
    /// Waiting for the compute kernel to be submitted.
    Dispatch,
    /// Waiting for the composite pass to be submitted.
    Composite,
    /// Waiting for the presentation request to be answered.
    Present,
}

/// What the host reports to the machine.
#[derive(Clone, Copy, Debug, PartialEq, Eq, Structural)]
pub enum FrameEvent {
    /// An iteration of the host loop begins; the surface has this extent.
    Begin { width: u32, height: u32 },
    /// The surface and what depends on its size were rebuilt.
    Recreated,
    /// A presentable image was acquired; `suboptimal` if the surface no
    /// longer matches the window exactly.
    Acquired { suboptimal: bool },
    /// The presentation layer found the surface stale.
    SurfaceStale,
    /// The compute kernel was submitted.
    ComputeSubmitted,
    /// The composite pass was submitted.
    CompositeSubmitted,
    /// The presentation request succeeded.
    Presented,
    /// The device failed in a way that nothing recovers from.
    DeviceLost,
}

/// The completion handles that a submission has to wait on, all of them.
#[derive(Clone, Copy, Debug, PartialEq, Eq, Structural)]
pub struct WaitSet {
    /// The handle of the last frame that was presented.
    pub previous_frame: bool,
    /// The handle that came with the acquired image.
    pub acquired: bool,
    /// The handle of this frame's compute dispatch.
    pub compute: bool,
    /// The handle of this frame's composite pass.
    pub composite: bool,
}

/// What the host has to do next.
#[derive(Clone, Copy, Debug, PartialEq, Eq, Structural)]
pub enum FrameAction {
    /// The surface has no extent: drop the frame.
    SkipFrame,
    /// Rebuild the surface, its images and what depends on their size for
    /// this extent, then report `Recreated`.
    RecreateSurface { width: u32, height: u32 },
    /// Acquire the next presentable image.
    AcquireImage,
    /// The surface was stale: report it and give the frame up.
    AbandonFrame,
    /// Submit the compute kernel for a target of this extent.
    DispatchCompute { width: u32, height: u32 },
    /// Submit the composite pass once the handles of `wait` are complete.
    Composite { wait: WaitSet },
    /// Request presentation once the handles of `wait` are complete.
    Present { wait: WaitSet },
    /// The frame is on its way to the screen: count it.
    CompleteFrame,
    /// End the process.
    Terminate,
}

/// Why the machine refused an event.
#[derive(Clone, Copy, Debug, PartialEq, Eq, Structural)]
pub enum FrameError {
    /// The event cannot follow what the machine last asked for.
    OutOfSequence,
}

/// The frame state machine.
#[derive(Clone, Copy, Debug, PartialEq, Eq, Structural)]
pub struct FramePipeline {
    pub state: FrameState,
    /// The surface has to be rebuilt before the next image is acquired.
    pub needs_recreation: bool,
    /// The last frame was presented, so its handle guards the images it
    /// used.
    pub previous_pending: bool,
    /// Width of the surface when the frame in progress began.
    pub width: u32,
    /// Height of the surface when the frame in progress began.
    pub height: u32,
}

/// What the composite pass waits on: the compute dispatch and the acquired
/// image, both, and the last presented frame if there is one.
pub open spec fn composite_wait(previous_pending: bool) -> WaitSet {
    WaitSet { previous_frame: previous_pending, acquired: true, compute: true, composite: false }
}

/// What the presentation request waits on: the composite pass.
pub open spec fn present_wait() -> WaitSet {
    WaitSet { previous_frame: false, acquired: false, compute: false, composite: true }
}

impl FramePipeline {
    /// The machine before the first frame.
    pub open spec fn initial() -> FramePipeline {
        FramePipeline {
            state: FrameState::Idle,
            needs_recreation: false,
            previous_pending: false,
            width: 0,
            height: 0,
        }
    }

    /// Whether `event` can follow what the machine last asked for.
    pub open spec fn accepts(self, event: FrameEvent) -> bool {
        match event {
            FrameEvent::Begin { width, height } => self.state == FrameState::Idle,
            FrameEvent::Recreated => self.state == FrameState::Acquire && self.needs_recreation,
            FrameEvent::Acquired { suboptimal } => self.state == FrameState::Acquire
                && !self.needs_recreation,
            FrameEvent::SurfaceStale => self.state == FrameState::Acquire || self.state
                == FrameState::Present,
            FrameEvent::ComputeSubmitted => self.state == FrameState::Dispatch,
            FrameEvent::CompositeSubmitted => self.state == FrameState::Composite,
            FrameEvent::Presented => self.state == FrameState::Present,
            FrameEvent::DeviceLost => true,
        }
    }

    /// The machine after an event that it accepts.
    pub open spec fn after(self, event: FrameEvent) -> FramePipeline {
        match event {
            FrameEvent::Begin { width, height } => if width == 0 || height == 0 {
                self
            } else {
                FramePipeline { state: FrameState::Acquire, width, height, ..self }
            },
            FrameEvent::Recreated => FramePipeline { needs_recreation: false, ..self },
            FrameEvent::Acquired { suboptimal } => FramePipeline {
                state: FrameState::Dispatch,
                needs_recreation: suboptimal,
                ..self
            },
            FrameEvent::SurfaceStale => FramePipeline {
                state: FrameState::Idle,
                needs_recreation: true,
                previous_pending: self.previous_pending && self.state == FrameState::Acquire,
                ..self
            },
            FrameEvent::ComputeSubmitted => FramePipeline { state: FrameState::Composite, ..self },
            FrameEvent::CompositeSubmitted => FramePipeline { state: FrameState::Present, ..self },
            FrameEvent::Presented => FramePipeline {
                state: FrameState::Idle,
                previous_pending: true,
                ..self
            },
            FrameEvent::DeviceLost => FramePipeline {
                state: FrameState::Idle,
                previous_pending: false,
                ..self
            },
        }
    }

    /// What the machine asks for in answer to an event that it accepts.
    pub open spec fn action_for(self, event: FrameEvent) -> FrameAction {
        match event {
            FrameEvent::Begin { width, height } => if width == 0 || height == 0 {
                FrameAction::SkipFrame
            } else if self.needs_recreation {
                FrameAction::RecreateSurface { width, height }
            } else {
                FrameAction::AcquireImage
            },
            FrameEvent::Recreated => FrameAction::AcquireImage,
            FrameEvent::Acquired { suboptimal } => FrameAction::DispatchCompute {
                width: self.width,
                height: self.height,
            },
            FrameEvent::SurfaceStale => FrameAction::AbandonFrame,
            FrameEvent::ComputeSubmitted => FrameAction::Composite {
                wait: composite_wait(self.previous_pending),
            },
            FrameEvent::CompositeSubmitted => FrameAction::Present { wait: present_wait() },
            FrameEvent::Presented => FrameAction::CompleteFrame,
            FrameEvent::DeviceLost => FrameAction::Terminate,
        }
    }

    /// The machine after a run of events, taken one after the other.
    pub open spec fn after_all(self, events: Seq<FrameEvent>) -> FramePipeline
        decreases events.len(),
    {
        if events.len() == 0 {
            self
        } else {
            self.after_all(events.drop_last()).after(events.last())
        }
    }

    /// Whether the machine accepts every event of a run in its turn.
    pub open spec fn accepts_all(self, events: Seq<FrameEvent>) -> bool
        decreases events.len(),
    {
        events.len() == 0 || (self.accepts_all(events.drop_last()) && self.after_all(
            events.drop_last(),
        ).accepts(events.last()))
    }

    /// The machine after a notification that the geometry of the window
    /// changed.
    pub open spec fn after_resize(self) -> FramePipeline {
        FramePipeline { needs_recreation: true, ..self }
    }

    /// The machine before the first frame.
    pub fn new() -> (pipeline: FramePipeline)
        ensures
            pipeline == FramePipeline::initial(),
    {
        FramePipeline {
            state: FrameState::Idle,
            needs_recreation: false,
            previous_pending: false,
            width: 0,
            height: 0,
        }
    }

    /// Marks the surface for recreation before the next image is acquired.
    pub fn notify_resized(&mut self)
        ensures
            *final(self) == old(self).after_resize(),
    {
        self.needs_recreation = true;
    }

    /// Takes one event and answers with the next action. An event that
    /// cannot follow what the machine last asked for is refused and leaves
    /// the machine as it was.
    pub fn step(&mut self, event: FrameEvent) -> (result: Result<FrameAction, FrameError>)
        ensures
            old(self).accepts(event) ==> result == Ok::<FrameAction, FrameError>(
                old(self).action_for(event),
            ) && *final(self) == old(self).after(event),
            !old(self).accepts(event) ==> result == Err::<FrameAction, FrameError>(
                FrameError::OutOfSequence,
            ) && *final(self) == *old(self),
    {
        match event {
            FrameEvent::DeviceLost => {
                self.state = FrameState::Idle;
                self.previous_pending = false;
                Ok(FrameAction::Terminate)
            },
            FrameEvent::Begin { width, height } => {
                if self.state != FrameState::Idle {
                    Err(FrameError::OutOfSequence)
                } else if width == 0 || height == 0 {
                    Ok(FrameAction::SkipFrame)
                } else {
                    self.state = FrameState::Acquire;
                    self.width = width;
                    self.height = height;
                    if self.needs_recreation {
                        Ok(FrameAction::RecreateSurface { width, height })
                    } else {
                        Ok(FrameAction::AcquireImage)
                    }
                }
            },
            FrameEvent::Recreated => {
                if self.state == FrameState::Acquire && self.needs_recreation {
                    self.needs_recreation = false;
                    Ok(FrameAction::AcquireImage)
                } else {
                    Err(FrameError::OutOfSequence)
                }
            },
            FrameEvent::Acquired { suboptimal } => {
                if self.state == FrameState::Acquire && !self.needs_recreation {
                    self.state = FrameState::Dispatch;
                    self.needs_recreation = suboptimal;
                    Ok(FrameAction::DispatchCompute { width: self.width, height: self.height })
                } else {
                    Err(FrameError::OutOfSequence)
                }
            },
            FrameEvent::SurfaceStale => {
                if self.state == FrameState::Acquire {
                    self.state = FrameState::Idle;
                    self.needs_recreation = true;
                    Ok(FrameAction::AbandonFrame)
                } else if self.state == FrameState::Present {
                    self.state = FrameState::Idle;
                    self.needs_recreation = true;
                    self.previous_pending = false;
                    Ok(FrameAction::AbandonFrame)
                } else {
                    Err(FrameError::OutOfSequence)
                }
            },
            FrameEvent::ComputeSubmitted => {
                if self.state == FrameState::Dispatch {
                    self.state = FrameState::Composite;
                    Ok(
                        FrameAction::Composite {
                            wait: WaitSet {
                                previous_frame: self.previous_pending,
                                acquired: true,
                                compute: true,
                                composite: false,
                            },
                        },
                    )
                } else {
                    Err(FrameError::OutOfSequence)
                }
            },
            FrameEvent::CompositeSubmitted => {
                if self.state == FrameState::Composite {
                    self.state = FrameState::Present;
                    Ok(
                        FrameAction::Present {
                            wait: WaitSet {
                                previous_frame: false,
                                acquired: false,
                                compute: false,
                                composite: true,
                            },
                        },
                    )
                } else {
                    Err(FrameError::OutOfSequence)
                }
            },
            FrameEvent::Presented => {
                if self.state == FrameState::Present {
                    self.state = FrameState::Idle;
                    self.previous_pending = true;
                    Ok(FrameAction::CompleteFrame)
                } else {
                    Err(FrameError::OutOfSequence)
                }
            },
        }
    }
}

/// Whether an action submits work to the device or asks for presentation.
pub open spec fn is_submission(action: FrameAction) -> bool {
    action is DispatchCompute || action is Composite || action is Present
}

/// A stale surface at acquire gives the frame up: the machine is idle again
/// and the surface is marked for recreation. Whatever the host reports next,
/// no answer to it submits work to the device or asks for presentation, and
/// the next iteration over a surface with an extent asks for the recreation
/// first: an image is acquired only once the host has reported it done.
pub proof fn lemma_stale_acquire_abandons_and_recreates(
    pipeline: FramePipeline,
    next: FrameEvent,
    width: u32,
    height: u32,
    suboptimal: bool,
)
    requires
        pipeline.state == FrameState::Acquire,
        width > 0,
        height > 0,
    ensures
        pipeline.accepts(FrameEvent::SurfaceStale),
        pipeline.action_for(FrameEvent::SurfaceStale) == FrameAction::AbandonFrame,
        pipeline.after(FrameEvent::SurfaceStale).state == FrameState::Idle,
        pipeline.after(FrameEvent::SurfaceStale).needs_recreation,
        pipeline.after(FrameEvent::SurfaceStale).accepts(next) ==> !is_submission(
            pipeline.after(FrameEvent::SurfaceStale).action_for(next),
        ),
        pipeline.after(FrameEvent::SurfaceStale).action_for(FrameEvent::Begin { width, height })
            == (FrameAction::RecreateSurface { width, height }),
        !pipeline.after(FrameEvent::SurfaceStale).after(
            FrameEvent::Begin { width, height },
        ).accepts(FrameEvent::Acquired { suboptimal }),
        pipeline.after(FrameEvent::SurfaceStale).after(
            FrameEvent::Begin { width, height },
        ).action_for(FrameEvent::Recreated) == FrameAction::AcquireImage,
{
}

/// A frame reaches the screen only through every stage, in order. Whatever
/// the host reported since the machine was idle, if the machine accepted all
/// of it and the last report is a successful presentation, then the reports
/// before it were, in this order, an acquired image, the submitted compute
/// kernel and the submitted composite pass, and the image was acquired in
/// the acquire stage of a frame that had begun.
pub proof fn lemma_presented_frame_ran_every_stage(start: FramePipeline, events: Seq<FrameEvent>)
    requires
        start.state == FrameState::Idle,
        start.accepts_all(events),
        events.len() > 0,
        events.last() == FrameEvent::Presented,
    ensures
        events.len() >= 5,
        events[events.len() - 4] is Acquired,
        events[events.len() - 3] == FrameEvent::ComputeSubmitted,
        events[events.len() - 2] == FrameEvent::CompositeSubmitted,
        start.after_all(events.take(events.len() - 4)).state == FrameState::Acquire,
        start.after_all(events).state == FrameState::Idle,
        start.after_all(events).previous_pending,
{
    let composited = events.drop_last();
    lemma_last_step(start, events);
    assert(start.after_all(composited).state == FrameState::Present);
    let dispatched = composited.drop_last();
    lemma_last_step(start, composited);
    assert(start.after_all(dispatched).state == FrameState::Composite);
    let acquired = dispatched.drop_last();
    lemma_last_step(start, dispatched);
    assert(start.after_all(acquired).state == FrameState::Dispatch);
    let begun = acquired.drop_last();
    lemma_last_step(start, acquired);
    assert(start.after_all(begun).state == FrameState::Acquire);
    assert(begun =~= events.take(events.len() - 4));
}

/// The last step of a run that the machine accepts: the machine accepted
/// the run before it and then its last event.
proof fn lemma_last_step(start: FramePipeline, events: Seq<FrameEvent>)
    requires
        start.accepts_all(events),
        start.after_all(events).state != start.state || events.len() > 0,
    ensures
        events.len() > 0,
        start.accepts_all(events.drop_last()),
        start.after_all(events.drop_last()).accepts(events.last()),
        start.after_all(events) == start.after_all(events.drop_last()).after(events.last()),
{
}

} // verus!
