//! The acquire-and-present cycle: what to ask of the driver next, given what
//! it answered last.

use vstd::prelude::*;

use crate::error::RenderError;
use crate::renderer_core::recreation;
use crate::renderer_core::ChainReply;
use crate::renderer_core::FrameResources;
use crate::renderer_core::RendererCore;
use crate::vulkan_api_connection::VulkanConnection;

verus! {

/// How much GPU work may be outstanding when a frame's cycle ends.
#[derive(Clone, Copy, Debug, PartialEq, Eq, Structural)]
pub enum FramePacing {
    /// Wait for each frame's completion before the cycle ends.
    WaitEachFrame,
    /// Let one frame's work go on while the next frame is prepared.
    Overlap,
}

/// A completion marker: stands for one submission that is not yet known to
/// be complete.
#[derive(Clone, Copy, Debug, PartialEq, Eq, Structural)]
pub struct FrameMarker {
    /// The image of the chain that the submission draws to.
    pub image_index: u32,
}

/// Where in the cycle the renderer is: which answer it waits for.
#[derive(Clone, Copy, Debug, PartialEq, Eq)]
pub enum DrawPhase {
    /// Between cycles.
    Idle,
    /// The next image was asked for; `window` is the window's size.
    AwaitAcquire { window: [u32; 2] },
    /// A chain for `dimensions` was asked for.
    AwaitRecreate { dimensions: [u32; 2] },
    /// The oldest marker is being reclaimed before image `image_index` is
    /// drawn to.
    AwaitReclaim { image_index: u32 },
    /// The commands for image `image_index` were submitted.
    AwaitSubmit { image_index: u32 },
    /// The oldest marker is being waited for.
    AwaitCompletion,
    /// A fatal error has ended rendering.
    Halted,
}

/// What the driver, or the window, tells the renderer.
#[derive(Clone, Copy, Debug, PartialEq, Eq)]
pub enum DrawEvent {
    /// A redraw is due; `window` is the window's size in pixels.
    RedrawRequested { window: [u32; 2] },
    /// The chain handed out image `image_index`.
    Acquired { image_index: u32, suboptimal: bool },
    AcquireFailed,
    /// The chain that was asked for exists, with `image_count` images.
    ChainRecreated { image_count: usize },
    ChainRejected,
    /// The marker's finished work was cleaned up.
    Reclaimed,
    /// The submission was accepted and flushed; its marker exists.
    Submitted,
    SubmitRejected,
    /// The marker that was waited for has resolved.
    Completed,
}

/// One step of a submission. Each step is queued behind the one before it.
#[derive(Clone, Copy, Debug, PartialEq, Eq, Structural)]
pub enum SubmissionStep {
    /// Wait until the acquired image is signalled as available.
    AwaitAcquisition,
    /// Execute the command sequence recorded for this image.
    Execute { command_buffer: u32 },
    /// Present this image back to the chain.
    Present { image_index: u32 },
    /// Signal the submission's marker and hand the work to the GPU.
    SignalMarker,
}

/// What the renderer asks for next.
#[derive(Clone, Copy, Debug, PartialEq, Eq)]
pub enum DrawAction {
    /// Ask the chain for its next image.
    Acquire,
    /// Recreate the chain for `dimensions`, all else as in the present chain.
    RecreateChain { dimensions: [u32; 2] },
    /// The set was rebuilt: make the driver's objects anew from it. The
    /// cycle is over.
    Rebuild,
    /// Clean up what `marker`'s submission has finished, without waiting.
    Reclaim { marker: FrameMarker },
    /// Submit the steps of `submission(image_index)`.
    Submit { image_index: u32 },
    /// Block until `marker` resolves, then let go of it.
    Wait { marker: FrameMarker },
    /// The cycle is over.
    Finish,
    /// Report the error; the frame is dropped and the cycle is over.
    Drop(RenderError),
    /// Report the error; rendering has ended.
    Fatal(RenderError),
    /// The event was not the answer awaited; nothing changes.
    Ignore,
}

/// What a renderer holds.
pub struct RendererState {
    /// The connection that the renderer was made with.
    pub vapi: VulkanConnection,
    pub pacing: FramePacing,
    pub phase: DrawPhase,
    /// The markers of the submissions not yet known to be complete, oldest
    /// first.
    pub in_flight: Seq<FrameMarker>,
    pub core: FrameResources,
}

/// The steps of the submission for image `image_index`, in their order:
/// the acquisition is waited for before the image's command sequence is
/// executed, the image is presented after the execution, and the marker is
/// signalled last.
pub open spec fn submission_of(image_index: u32) -> Seq<SubmissionStep> {
    seq![
        SubmissionStep::AwaitAcquisition,
        SubmissionStep::Execute { command_buffer: image_index },
        SubmissionStep::Present { image_index },
        SubmissionStep::SignalMarker,
    ]
}

/// The steps of the submission for image `image_index`, in their order.
pub fn submission(image_index: u32) -> (steps: Vec<SubmissionStep>)
    ensures
        steps@ == submission_of(image_index),
{
    let mut steps: Vec<SubmissionStep> = Vec::new();
    steps.push(SubmissionStep::AwaitAcquisition);
    steps.push(SubmissionStep::Execute { command_buffer: image_index });
    steps.push(SubmissionStep::Present { image_index });
    steps.push(SubmissionStep::SignalMarker);
    steps
}

impl FramePacing {
    /// How many markers may be outstanding between cycles.
    pub open spec fn retained(self) -> nat {
        match self {
            FramePacing::WaitEachFrame => 0,
            FramePacing::Overlap => 1,
        }
    }
}

impl RendererState {
    /// The frame resource set is well formed; no more markers are
    /// outstanding than the phase allows: between cycles and up to a
    /// submission as many as the pacing retains, one more while the oldest
    /// is waited for; and the image that is about to be drawn to, or was
    /// submitted, is one of the chain.
    pub open spec fn well_formed(self) -> bool {
        &&& self.core.well_formed()
        &&& match self.phase {
            DrawPhase::AwaitReclaim { image_index } => {
                &&& 0 < self.in_flight.len() <= self.pacing.retained()
                &&& image_index < self.core.images.len()
            },
            DrawPhase::AwaitSubmit { image_index } => {
                &&& self.in_flight.len() <= self.pacing.retained()
                &&& image_index < self.core.images.len()
            },
            DrawPhase::AwaitCompletion => self.in_flight.len() == self.pacing.retained() + 1,
            _ => self.in_flight.len() <= self.pacing.retained(),
        }
    }

    /// The state in another phase.
    pub open spec fn at(self, phase: DrawPhase) -> RendererState {
        RendererState { phase, ..self }
    }

    /// What becomes of the state, and what is asked for, when `event`
    /// arrives.
    ///
    /// A redraw starts a cycle by acquiring an image. A suboptimal image is
    /// not drawn to: the chain is recreated for the window's size, and the
    /// cycle ends when the set is rebuilt. Otherwise the oldest outstanding
    /// marker, if there is one, is reclaimed first; then the image's command
    /// sequence is submitted. An accepted submission adds its marker; when
    /// that makes more markers than the pacing retains, the oldest is waited
    /// for and let go. A rejected submission drops the frame. A failed
    /// acquire, an image outside the chain and a rejected chain are fatal.
    /// An event that is not the answer awaited is ignored.
    pub open spec fn step(self, event: DrawEvent) -> (RendererState, DrawAction) {
        match (self.phase, event) {
            (DrawPhase::Idle, DrawEvent::RedrawRequested { window }) => (
                self.at(DrawPhase::AwaitAcquire { window }),
                DrawAction::Acquire,
            ),
            (DrawPhase::AwaitAcquire { window }, DrawEvent::Acquired { image_index, suboptimal }) => {
                if suboptimal {
                    if window[0] == 0 || window[1] == 0 {
                        (self.at(DrawPhase::Halted), DrawAction::Fatal(RenderError::ChainStale))
                    } else {
                        (
                            self.at(DrawPhase::AwaitRecreate { dimensions: window }),
                            DrawAction::RecreateChain { dimensions: window },
                        )
                    }
                } else if image_index >= self.core.command_buffers.len() {
                    (self.at(DrawPhase::Halted), DrawAction::Fatal(RenderError::DeviceLost))
                } else if self.in_flight.len() > 0 {
                    (
                        self.at(DrawPhase::AwaitReclaim { image_index }),
                        DrawAction::Reclaim { marker: self.in_flight[0] },
                    )
                } else {
                    (
                        self.at(DrawPhase::AwaitSubmit { image_index }),
                        DrawAction::Submit { image_index },
                    )
                }
            },
            (DrawPhase::AwaitAcquire { .. }, DrawEvent::AcquireFailed) => (
                self.at(DrawPhase::Halted),
                DrawAction::Fatal(RenderError::DeviceLost),
            ),
            (DrawPhase::AwaitRecreate { dimensions }, DrawEvent::ChainRecreated { image_count }) => {
                match recreation(self.core, dimensions, ChainReply::Created { image_count }) {
                    Ok(core) => (
                        RendererState { phase: DrawPhase::Idle, core, ..self },
                        DrawAction::Rebuild,
                    ),
                    Err(refusal) => (self.at(DrawPhase::Halted), DrawAction::Fatal(refusal)),
                }
            },
            (DrawPhase::AwaitRecreate { .. }, DrawEvent::ChainRejected) => (
                self.at(DrawPhase::Halted),
                DrawAction::Fatal(RenderError::ChainStale),
            ),
            (DrawPhase::AwaitReclaim { image_index }, DrawEvent::Reclaimed) => (
                self.at(DrawPhase::AwaitSubmit { image_index }),
                DrawAction::Submit { image_index },
            ),
            (DrawPhase::AwaitSubmit { image_index }, DrawEvent::Submitted) => {
                let in_flight = self.in_flight.push(FrameMarker { image_index });
                if in_flight.len() > self.pacing.retained() {
                    (
                        RendererState { phase: DrawPhase::AwaitCompletion, in_flight, ..self },
                        DrawAction::Wait { marker: in_flight[0] },
                    )
                } else {
                    (RendererState { phase: DrawPhase::Idle, in_flight, ..self }, DrawAction::Finish)
                }
            },
            (DrawPhase::AwaitSubmit { .. }, DrawEvent::SubmitRejected) => (
                self.at(DrawPhase::Idle),
                DrawAction::Drop(RenderError::SubmissionRejected),
            ),
            (DrawPhase::AwaitCompletion, DrawEvent::Completed) => (
                RendererState {
                    phase: DrawPhase::Idle,
                    in_flight: self.in_flight.drop_first(),
                    ..self
                },
                DrawAction::Finish,
            ),
            _ => (self, DrawAction::Ignore),
        }
    }
}

/// The renderer: the connection, the frame resource set, and the markers of
/// the submissions that may still be running.
pub struct Renderer {
    vapi: VulkanConnection,
    core: RendererCore,
    pacing: FramePacing,
    phase: DrawPhase,
    in_flight: Vec<FrameMarker>,
}

impl View for Renderer {
    type V = RendererState;

    closed spec fn view(&self) -> RendererState {
        RendererState {
            vapi: self.vapi,
            pacing: self.pacing,
            phase: self.phase,
            in_flight: self.in_flight@,
            core: self.core@,
        }
    }
}

impl Renderer {
    /// The connection that the renderer was made with.
    pub open spec fn connection(&self) -> VulkanConnection {
        self@.vapi
    }

    /// Builds the renderer on a connection for a window of `dimensions`,
    /// given what the driver answered to the chain request for them. The
    /// renderer starts between cycles, with no submission outstanding.
    pub fn new(
        vapi: VulkanConnection,
        dimensions: [u32; 2],
        chain: ChainReply,
        pacing: FramePacing,
    ) -> (made: Result<Renderer, RenderError>)
        ensures
            match crate::renderer_core::construction(vapi, dimensions, chain) {
                Ok(core) => {
                    &&& made is Ok
                    &&& made->Ok_0@ == (RendererState {
                        vapi,
                        pacing,
                        phase: DrawPhase::Idle,
                        in_flight: Seq::<FrameMarker>::empty(),
                        core,
                    })
                    &&& made->Ok_0@.well_formed()
                },
                Err(refusal) => made == Err::<Renderer, RenderError>(refusal),
            },
    {
        let core = match RendererCore::new(&vapi, dimensions, chain) {
            Ok(core) => core,
            Err(refusal) => { return Err(refusal); },
        };
        Ok(Renderer { vapi, core, pacing, phase: DrawPhase::Idle, in_flight: Vec::new() })
    }

    /// Rebuilds everything that depends on the window's size, given what the
    /// driver answered to the chain request for `dimensions`. This is done
    /// between cycles only: within a cycle the chain may not change under
    /// the image that was acquired. The outstanding markers are left as
    /// they are; on `ChainStale` so is the set.
    pub fn recreate_core(&mut self, dimensions: [u32; 2], chain: ChainReply) -> (done: Result<
        (),
        RenderError,
    >)
        requires
            old(self)@.well_formed(),
            old(self)@.phase is Idle,
        ensures
            match recreation(old(self)@.core, dimensions, chain) {
                Ok(core) => done is Ok && final(self)@ == (RendererState { core, ..old(self)@ }),
                Err(refusal) => done == Err::<(), RenderError>(refusal) && final(self)@ == old(
                    self,
                )@,
            },
            final(self)@.well_formed(),
    {
        self.core.recreate(dimensions, chain)
    }

    /// The connection.
    pub fn vapi(&self) -> (vapi: &VulkanConnection)
        ensures
            *vapi == self.connection(),
    {
        &self.vapi
    }

    /// The frame resource set.
    pub fn resources(&self) -> (resources: &RendererCore)
        ensures
            resources@ == self@.core,
    {
        &self.core
    }

    /// The pacing that the renderer was made with.
    pub fn pacing(&self) -> (pacing: FramePacing)
        ensures
            pacing == self@.pacing,
    {
        self.pacing
    }

    /// Where in the cycle the renderer is.
    pub fn phase(&self) -> (phase: DrawPhase)
        ensures
            phase == self@.phase,
    {
        self.phase
    }

    /// The markers of the submissions not yet known to be complete, oldest
    /// first.
    pub fn in_flight(&self) -> (markers: &Vec<FrameMarker>)
        ensures
            markers@ == self@.in_flight,
    {
        &self.in_flight
    }

    /// Takes what the driver or the window told and says what to ask for
    /// next; see [`RendererState::step`].
    pub fn on_draw(&mut self, event: DrawEvent) -> (action: DrawAction)
        requires
            old(self)@.well_formed(),
        ensures
            (final(self)@, action) == old(self)@.step(event),
            final(self)@.well_formed(),
    {
        match (self.phase, event) {
            (DrawPhase::Idle, DrawEvent::RedrawRequested { window }) => {
                self.phase = DrawPhase::AwaitAcquire { window };
                DrawAction::Acquire
            },
            (DrawPhase::AwaitAcquire { window }, DrawEvent::Acquired { image_index, suboptimal }) => {
                if suboptimal {
                    if window[0] == 0 || window[1] == 0 {
                        self.phase = DrawPhase::Halted;
                        DrawAction::Fatal(RenderError::ChainStale)
                    } else {
                        self.phase = DrawPhase::AwaitRecreate { dimensions: window };
                        DrawAction::RecreateChain { dimensions: window }
                    }
                } else if image_index as usize >= self.core.image_count() {
                    self.phase = DrawPhase::Halted;
                    DrawAction::Fatal(RenderError::DeviceLost)
                } else if self.in_flight.len() > 0 {
                    self.phase = DrawPhase::AwaitReclaim { image_index };
                    DrawAction::Reclaim { marker: self.in_flight[0] }
                } else {
                    self.phase = DrawPhase::AwaitSubmit { image_index };
                    DrawAction::Submit { image_index }
                }
            },
            (DrawPhase::AwaitAcquire { .. }, DrawEvent::AcquireFailed) => {
                self.phase = DrawPhase::Halted;
                DrawAction::Fatal(RenderError::DeviceLost)
            },
            (DrawPhase::AwaitRecreate { dimensions }, DrawEvent::ChainRecreated { image_count }) => {
                match self.core.recreate(dimensions, ChainReply::Created { image_count }) {
                    Ok(()) => {
                        self.phase = DrawPhase::Idle;
                        DrawAction::Rebuild
                    },
                    Err(refusal) => {
                        self.phase = DrawPhase::Halted;
                        DrawAction::Fatal(refusal)
                    },
                }
            },
            (DrawPhase::AwaitRecreate { .. }, DrawEvent::ChainRejected) => {
                self.phase = DrawPhase::Halted;
                DrawAction::Fatal(RenderError::ChainStale)
            },
            (DrawPhase::AwaitReclaim { image_index }, DrawEvent::Reclaimed) => {
                self.phase = DrawPhase::AwaitSubmit { image_index };
                DrawAction::Submit { image_index }
            },
            (DrawPhase::AwaitSubmit { image_index }, DrawEvent::Submitted) => {
                self.in_flight.push(FrameMarker { image_index });
                let retained: usize = match self.pacing {
                    FramePacing::WaitEachFrame => 0,
                    FramePacing::Overlap => 1,
                };
                if self.in_flight.len() > retained {
                    self.phase = DrawPhase::AwaitCompletion;
                    DrawAction::Wait { marker: self.in_flight[0] }
                } else {
                    self.phase = DrawPhase::Idle;
                    DrawAction::Finish
                }
            },
            (DrawPhase::AwaitSubmit { .. }, DrawEvent::SubmitRejected) => {
                self.phase = DrawPhase::Idle;
                DrawAction::Drop(RenderError::SubmissionRejected)
            },
            (DrawPhase::AwaitCompletion, DrawEvent::Completed) => {
                self.in_flight.remove(0);
                self.phase = DrawPhase::Idle;
                DrawAction::Finish
            },
            _ => DrawAction::Ignore,
        }
    }
}

/// The state after `events` have arrived one after another.
pub open spec fn run(state: RendererState, events: Seq<DrawEvent>) -> RendererState
    decreases events.len(),
{
    if events.len() == 0 {
        state
    } else {
        run(state, events.drop_last()).step(events.last()).0
    }
}

/// What is asked for when the `j`-th of `events` arrives.
pub open spec fn action_at(state: RendererState, events: Seq<DrawEvent>, j: int) -> DrawAction {
    run(state, events.take(j)).step(events[j]).1
}

/// The state after one more event is the step from the state before it.
pub proof fn run_unfolds(state: RendererState, events: Seq<DrawEvent>, j: int)
    requires
        0 <= j < events.len(),
    ensures
        run(state, events.take(j + 1)) == run(state, events.take(j)).step(events[j]).0,
{
    assert(events.take(j + 1).drop_last() == events.take(j));
}

/// A step keeps the state well formed and the pacing as it is.
pub proof fn step_keeps_well_formed(state: RendererState, event: DrawEvent)
    requires
        state.well_formed(),
    ensures
        state.step(event).0.well_formed(),
        state.step(event).0.pacing == state.pacing,
{
    if state.phase is AwaitRecreate && event is ChainRecreated {
        let dimensions = state.phase->dimensions;
        if dimensions[0] > 0 && dimensions[1] > 0 {
            crate::renderer_core::recreation_fits_the_window(
                state.core,
                dimensions,
                event->image_count,
            );
        }
    } else {
        assert(state.step(event).0.core == state.core);
        crate::renderer_core::set_is_consistent(state.core);
    }
}

/// Whatever arrives, the state stays well formed and the pacing as it is.
pub proof fn run_keeps_well_formed(state: RendererState, events: Seq<DrawEvent>)
    requires
        state.well_formed(),
    ensures
        run(state, events).well_formed(),
        run(state, events).pacing == state.pacing,
    decreases events.len(),
{
    if events.len() > 0 {
        run_keeps_well_formed(state, events.drop_last());
        step_keeps_well_formed(run(state, events.drop_last()), events.last());
    }
}

/// Whatever arrives, at most two markers are outstanding, and between
/// cycles at most one; with `WaitEachFrame` at most one, and between cycles
/// none.
pub proof fn in_flight_is_bounded(state: RendererState, events: Seq<DrawEvent>)
    requires
        state.well_formed(),
    ensures
        run(state, events).in_flight.len() <= 2,
        run(state, events).phase is Idle ==> run(state, events).in_flight.len() <= 1,
        state.pacing is WaitEachFrame ==> run(state, events).in_flight.len() <= 1,
        state.pacing is WaitEachFrame && run(state, events).phase is Idle ==> run(
            state,
            events,
        ).in_flight.len() == 0,
{
    run_keeps_well_formed(state, events);
}

/// The chain is asked to be recreated only in answer to a suboptimal image,
/// and then for the size that the window had when the redraw was requested.
pub proof fn recreation_answers_suboptimal(state: RendererState, event: DrawEvent)
    requires
        state.step(event).1 is RecreateChain,
    ensures
        state.phase is AwaitAcquire,
        event is Acquired,
        event->suboptimal,
        state.step(event).1->dimensions == state.phase->window,
{
}

/// A fatal error ends rendering: from then on every event is ignored and
/// nothing changes.
pub proof fn fatal_error_ends_rendering(state: RendererState, event: DrawEvent, later: DrawEvent)
    requires
        state.step(event).1 is Fatal,
    ensures
        state.step(event).0.phase is Halted,
        state.step(event).0.step(later) == (state.step(event).0, DrawAction::Ignore),
{
}

/// A submission is made only while at most one marker is outstanding, and
/// if one is, only in answer to its reclaiming.
pub proof fn submission_follows_reclaim(state: RendererState, event: DrawEvent)
    requires
        state.well_formed(),
        state.step(event).1 is Submit,
    ensures
        state.in_flight.len() <= 1,
        state.in_flight.len() == 1 ==> state.phase is AwaitReclaim && event is Reclaimed,
        state.step(event).0.in_flight == state.in_flight,
{
}

/// `Reclaim` was asked for the marker that is oldest after the first `j`
/// events, and nothing but `Ignore` since.
pub open spec fn reclaim_was_asked(state: RendererState, events: Seq<DrawEvent>, j: int) -> bool {
    exists|m: int|
        {
            &&& 0 <= m < j
            &&& #[trigger] action_at(state, events, m) == (DrawAction::Reclaim {
                marker: run(state, events.take(j)).in_flight[0],
            })
            &&& forall|k: int| m < k < j ==> #[trigger] action_at(state, events, k) is Ignore
        }
}

/// How the reclaiming of a marker begins and how it goes on: it begins with
/// `Reclaim` for the oldest marker, and until it ends nothing is asked for
/// and nothing changes.
pub proof fn reclaim_is_of_the_oldest(state: RendererState, event: DrawEvent)
    requires
        state.step(event).0.phase is AwaitReclaim,
    ensures
        state.phase is AwaitReclaim ==> state.step(event) == (state, DrawAction::Ignore),
        !(state.phase is AwaitReclaim) ==> {
            &&& state.step(event).1 == (DrawAction::Reclaim { marker: state.in_flight[0] })
            &&& state.step(event).0.in_flight == state.in_flight
        },
{
}

proof fn reclaim_precedes_its_answer(state: RendererState, events: Seq<DrawEvent>, j: int)
    requires
        state.well_formed(),
        state.phase is Idle,
        0 <= j <= events.len(),
        run(state, events.take(j)).phase is AwaitReclaim,
    ensures
        reclaim_was_asked(state, events, j),
    decreases j,
{
    if j == 0 {
        assert(events.take(0).len() == 0);
        assert(run(state, events.take(0)) == state);
    } else {
        let before = run(state, events.take(j - 1));
        let after = run(state, events.take(j));
        assert(after == before.step(events[j - 1]).0) by {
            run_unfolds(state, events, j - 1);
        }
        reclaim_is_of_the_oldest(before, events[j - 1]);
        if before.phase is AwaitReclaim {
            assert(after == before);
            assert(action_at(state, events, j - 1) is Ignore);
            reclaim_precedes_its_answer(state, events, j - 1);
            let m = choose|m: int|
                {
                    &&& 0 <= m < j - 1
                    &&& #[trigger] action_at(state, events, m) == (DrawAction::Reclaim {
                        marker: before.in_flight[0],
                    })
                    &&& forall|k: int| m < k < j - 1 ==> #[trigger] action_at(state, events, k) is Ignore
                };
            assert(action_at(state, events, m) == (DrawAction::Reclaim {
                marker: after.in_flight[0],
            }));
            assert forall|k: int| m < k < j implies #[trigger] action_at(
                state,
                events,
                k,
            ) is Ignore by {
                if k < j - 1 {
                } else {
                    assert(k == j - 1);
                }
            }
        } else {
            assert(after.in_flight == before.in_flight);
            assert(action_at(state, events, j - 1) == (DrawAction::Reclaim {
                marker: after.in_flight[0],
            }));
        }
    }
}

/// Starting between cycles, whatever arrives: when a submission is made
/// while a marker is outstanding, the reclaiming of that marker, the oldest,
/// was asked for before, and nothing else was asked for in between.
pub proof fn submission_reclaims_oldest_first(
    state: RendererState,
    events: Seq<DrawEvent>,
    j: int,
)
    requires
        state.well_formed(),
        state.phase is Idle,
        0 <= j < events.len(),
        action_at(state, events, j) is Submit,
        run(state, events.take(j)).in_flight.len() > 0,
    ensures
        run(state, events.take(j)).in_flight.len() == 1,
        reclaim_was_asked(state, events, j),
{
    let before = run(state, events.take(j));
    assert(before.well_formed()) by {
        run_keeps_well_formed(state, events.take(j));
    }
    submission_follows_reclaim(before, events[j]);
    assert(before.phase is AwaitReclaim);
    reclaim_precedes_its_answer(state, events, j);
}

/// While the oldest marker is waited for, nothing but its completion is
/// taken note of.
pub proof fn waiting_ends_on_completion(state: RendererState, event: DrawEvent)
    requires
        state.phase is AwaitCompletion,
        !(event is Completed),
    ensures
        state.step(event) == (state, DrawAction::Ignore),
{
}

/// With `WaitEachFrame`, a marker is outstanding only while it is waited
/// for.
pub proof fn outstanding_marker_is_waited_for(state: RendererState)
    requires
        state.well_formed(),
        state.pacing is WaitEachFrame,
        state.in_flight.len() > 0,
    ensures
        state.phase is AwaitCompletion,
{
}

proof fn marker_stays_until_completed(
    state: RendererState,
    events: Seq<DrawEvent>,
    k: int,
    j: int,
)
    requires
        state.well_formed(),
        state.pacing is WaitEachFrame,
        0 <= k <= j <= events.len(),
        run(state, events.take(k)).in_flight.len() > 0,
        forall|m: int| k <= m < j ==> !(events[m] is Completed),
    ensures
        run(state, events.take(j)).in_flight.len() > 0,
        run(state, events.take(j)).phase is AwaitCompletion,
    decreases j - k,
{
    if j == k {
        run_keeps_well_formed(state, events.take(k));
        outstanding_marker_is_waited_for(run(state, events.take(k)));
    } else {
        let before = run(state, events.take(j - 1));
        let after = run(state, events.take(j));
        marker_stays_until_completed(state, events, k, j - 1);
        assert(before.phase is AwaitCompletion);
        assert(after == before.step(events[j - 1]).0) by {
            run_unfolds(state, events, j - 1);
        }
        assert(!(events[j - 1] is Completed));
        waiting_ends_on_completion(before, events[j - 1]);
        assert(after == before);
    }
}

/// With `WaitEachFrame`, whatever arrives: when a marker is outstanding
/// after `k` events and a submission is made on the `j`-th, the marker's
/// completion has arrived in between.
pub proof fn submission_waits_for_completion(
    state: RendererState,
    events: Seq<DrawEvent>,
    k: int,
    j: int,
)
    requires
        state.well_formed(),
        state.pacing is WaitEachFrame,
        0 <= k <= j < events.len(),
        run(state, events.take(k)).in_flight.len() > 0,
        action_at(state, events, j) is Submit,
    ensures
        exists|m: int| k <= m < j && events[m] is Completed,
{
    if !(exists|m: int| k <= m < j && events[m] is Completed) {
        let before = run(state, events.take(j));
        marker_stays_until_completed(state, events, k, j);
        assert(before.phase is AwaitCompletion);
        if events[j] is Completed {
            assert(before.step(events[j]).1 is Finish);
        } else {
            waiting_ends_on_completion(before, events[j]);
        }
        assert(false);
    }
}

/// A submission leaves the renderer waiting for its answer, with the markers
/// as they were; and it is for an image of the chain.
pub proof fn submission_awaits_its_answer(state: RendererState, event: DrawEvent)
    requires
        state.well_formed(),
        state.step(event).1 is Submit,
    ensures
        state.step(event).0.phase == (DrawPhase::AwaitSubmit {
            image_index: state.step(event).1->image_index,
        }),
        state.step(event).0.in_flight == state.in_flight,
        state.step(event).0.core == state.core,
        state.step(event).1->image_index < state.core.images.len(),
        state.step(event).1->image_index < state.core.command_buffers.len(),
{
}

/// A submission that the driver accepted adds its marker behind those that
/// are outstanding.
pub proof fn accepted_submission_is_outstanding(state: RendererState)
    requires
        state.phase is AwaitSubmit,
    ensures
        state.step(DrawEvent::Submitted).0.in_flight == state.in_flight.push(
            FrameMarker { image_index: state.phase->AwaitSubmit_image_index },
        ),
        state.step(DrawEvent::Submitted).0.in_flight.len() > 0,
{
}

/// With `WaitEachFrame`, whatever arrives: between a submission that the
/// driver accepted and the next submission, the completion of the first has
/// arrived.
pub proof fn second_submission_waits_for_first(
    state: RendererState,
    events: Seq<DrawEvent>,
    i: int,
    j: int,
)
    requires
        state.well_formed(),
        state.pacing is WaitEachFrame,
        0 <= i,
        i + 1 < j < events.len(),
        action_at(state, events, i) is Submit,
        events[i + 1] is Submitted,
        action_at(state, events, j) is Submit,
    ensures
        exists|m: int| i + 1 < m < j && events[m] is Completed,
{
    let before = run(state, events.take(i));
    let waiting = run(state, events.take(i + 1));
    let submitted = run(state, events.take(i + 2));
    assert(before.well_formed()) by {
        run_keeps_well_formed(state, events.take(i));
    }
    assert(waiting == before.step(events[i]).0) by {
        run_unfolds(state, events, i);
    }
    assert(waiting.phase is AwaitSubmit) by {
        submission_awaits_its_answer(before, events[i]);
    }
    assert(submitted == waiting.step(events[i + 1]).0) by {
        run_unfolds(state, events, i + 1);
    }
    assert(events[i + 1] == DrawEvent::Submitted);
    assert(submitted.in_flight.len() > 0) by {
        accepted_submission_is_outstanding(waiting);
    }
    submission_waits_for_completion(state, events, i + 2, j);
}

/// The chain is being recreated for `window`, or has been, or rendering has
/// ended.
pub open spec fn recreating_for(state: RendererState, window: [u32; 2]) -> bool {
    ||| state.phase == (DrawPhase::AwaitRecreate { dimensions: window })
    ||| state.phase is Idle && state.core.swapchain.image_extent == window
        && state.core.viewport.extent == window
    ||| state.phase is Halted
}

/// A suboptimal image is answered by recreating the chain for the window's
/// size, or, in a window without area, by the end of rendering.
pub proof fn suboptimal_starts_recreation(state: RendererState, event: DrawEvent, window: [u32; 2])
    requires
        state.phase == (DrawPhase::AwaitAcquire { window }),
        event is Acquired,
        event->suboptimal,
    ensures
        state.step(event).1 == if window[0] == 0 || window[1] == 0 {
            DrawAction::Fatal(RenderError::ChainStale)
        } else {
            DrawAction::RecreateChain { dimensions: window }
        },
        recreating_for(state.step(event).0, window),
{
}

/// While the chain is being recreated for `window`, and after, nothing is
/// submitted, reclaimed or waited for; an acquire is asked for only once the
/// set has been rebuilt for `window`; and anything else leaves the
/// recreation under way, done, or failed.
pub proof fn recreation_goes_on(state: RendererState, event: DrawEvent, window: [u32; 2])
    requires
        recreating_for(state, window),
    ensures
        !(state.step(event).1 is Submit),
        !(state.step(event).1 is Reclaim),
        !(state.step(event).1 is Wait),
        state.step(event).1 is Acquire ==> state.phase is Idle,
        !(state.step(event).1 is Acquire) ==> recreating_for(state.step(event).0, window),
{
    if state.phase is AwaitRecreate && event is ChainRecreated {
        let rebuilt = recreation(
            state.core,
            window,
            ChainReply::Created { image_count: event->image_count },
        );
        if rebuilt is Ok {
            assert(rebuilt->Ok_0.swapchain.image_extent == window);
            assert(rebuilt->Ok_0.viewport.extent == window);
        }
    }
}

proof fn recreating_until_next_acquire(
    state: RendererState,
    events: Seq<DrawEvent>,
    window: [u32; 2],
    j: int,
)
    requires
        state.phase == (DrawPhase::AwaitAcquire { window }),
        1 <= j <= events.len(),
        events[0] is Acquired,
        events[0]->suboptimal,
        forall|k: int| 0 < k < j ==> !(#[trigger] action_at(state, events, k) is Acquire),
    ensures
        recreating_for(run(state, events.take(j)), window),
    decreases j,
{
    let before = run(state, events.take(j - 1));
    let after = run(state, events.take(j));
    assert(after == before.step(events[j - 1]).0) by {
        run_unfolds(state, events, j - 1);
    }
    if j == 1 {
        assert(events.take(0).len() == 0);
        assert(before == state);
        suboptimal_starts_recreation(state, events[0], window);
    } else {
        recreating_until_next_acquire(state, events, window, j - 1);
        assert(!(action_at(state, events, j - 1) is Acquire));
        recreation_goes_on(before, events[j - 1], window);
    }
}

/// When the image that was acquired is suboptimal, in a window of size
/// `window`: the answer is to recreate the chain for `window` (which is
/// fatal at once if a dimension is zero); and whatever arrives next, up to
/// the next acquire no submission is made and nothing is reclaimed or
/// waited for, and when the next acquire is asked for, the set has been
/// rebuilt for `window`.
pub proof fn suboptimal_image_is_not_drawn(
    state: RendererState,
    events: Seq<DrawEvent>,
    window: [u32; 2],
    j: int,
)
    requires
        state.well_formed(),
        state.phase == (DrawPhase::AwaitAcquire { window }),
        0 <= j < events.len(),
        events[0] is Acquired,
        events[0]->suboptimal,
        forall|k: int| 0 < k < j ==> !(#[trigger] action_at(state, events, k) is Acquire),
    ensures
        action_at(state, events, 0) == if window[0] == 0 || window[1] == 0 {
            DrawAction::Fatal(RenderError::ChainStale)
        } else {
            DrawAction::RecreateChain { dimensions: window }
        },
        !(action_at(state, events, j) is Submit),
        !(action_at(state, events, j) is Reclaim),
        !(action_at(state, events, j) is Wait),
        action_at(state, events, j) is Acquire ==> {
            &&& run(state, events.take(j)).core.swapchain.image_extent == window
            &&& run(state, events.take(j)).core.viewport.extent == window
            &&& run(state, events.take(j)).core.command_buffers.len() == run(
                state,
                events.take(j),
            ).core.images.len()
        },
{
    assert(events.take(0).len() == 0);
    assert(run(state, events.take(0)) == state);
    suboptimal_starts_recreation(state, events[0], window);
    if j > 0 {
        let before = run(state, events.take(j));
        recreating_until_next_acquire(state, events, window, j);
        recreation_goes_on(before, events[j], window);
        assert(before.well_formed()) by {
            run_keeps_well_formed(state, events.take(j));
        }
        crate::renderer_core::set_is_consistent(before.core);
    }
}

} // verus!
