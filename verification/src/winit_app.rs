//! The application: what to do about each event of the window.

use vstd::prelude::*;

use crate::error::RenderError;
use crate::renderer::DrawPhase;
use crate::renderer::FrameMarker;
use crate::renderer::FramePacing;
use crate::renderer::Renderer;
use crate::renderer::RendererState;
use crate::renderer_core::construction;
use crate::renderer_core::ChainReply;
use crate::vulkan_api_connection::VulkanConnection;

verus! {

/// An event of the window.
#[derive(Clone, Copy, Debug, PartialEq, Eq, Structural)]
pub enum WindowEvent {
    CloseRequested,
    /// The window has a new size, in pixels.
    Resized { width: u32, height: u32 },
    RedrawRequested,
    /// Any other event.
    Other,
}

/// What to do about an event.
#[derive(Clone, Copy, Debug, PartialEq, Eq)]
pub enum AppAction {
    /// Leave the event loop.
    Exit,
    /// Recreate what depends on the window's size, for `dimensions`.
    Recreate { dimensions: [u32; 2] },
    /// Run one acquire-and-present cycle, then request the next redraw.
    Draw,
    Nothing,
}

/// What the window is opened with.
#[derive(Clone, Debug)]
pub struct WindowAttributes {
    pub title: String,
    pub width: u32,
    pub height: u32,
}

/// The application: without a renderer until it is resumed, with one from
/// then on.
pub struct App {
    renderer: Option<Renderer>,
}

/// What is done about `event`: a close request ends the loop, a new size
/// recreates for that size, a redraw request draws; nothing else counts.
pub open spec fn dispatch(event: WindowEvent) -> AppAction {
    match event {
        WindowEvent::CloseRequested => AppAction::Exit,
        WindowEvent::Resized { width, height } => AppAction::Recreate {
            dimensions: [width, height],
        },
        WindowEvent::RedrawRequested => AppAction::Draw,
        WindowEvent::Other => AppAction::Nothing,
    }
}

/// Only a close request, a new size and a redraw request are acted on, each
/// in its own way.
pub proof fn only_three_events_count(event: WindowEvent)
    ensures
        dispatch(event) is Exit <==> event is CloseRequested,
        dispatch(event) is Recreate <==> event is Resized,
        dispatch(event) is Draw <==> event is RedrawRequested,
        dispatch(event) is Nothing <==> event is Other,
{
}

impl Default for App {
    fn default() -> (app: App)
        ensures
            !app.running(),
    {
        App { renderer: None }
    }
}

impl App {
    /// The renderer, once there is one.
    pub closed spec fn held(&self) -> Option<Renderer> {
        self.renderer
    }

    /// Whether the application has its renderer.
    pub open spec fn running(&self) -> bool {
        self.held() is Some
    }

    /// What the renderer of a running application holds.
    pub open spec fn state(&self) -> RendererState
        recommends
            self.running(),
    {
        self.held()->Some_0@
    }

    /// The renderer is well formed, if there is one.
    pub open spec fn well_formed(&self) -> bool {
        self.running() ==> self.state().well_formed()
    }

    /// Whether the application has its renderer.
    pub fn is_running(&self) -> (running: bool)
        ensures
            running == self.running(),
    {
        self.renderer.is_some()
    }

    /// What the window is opened with: its title and its size.
    pub fn window_attributes() -> (attributes: WindowAttributes)
        ensures
            attributes.title@ == "Vulkan Triangle"@,
            attributes.width == 1024,
            attributes.height == 1024,
    {
        WindowAttributes { title: "Vulkan Triangle".to_owned(), width: 1024, height: 1024 }
    }

    /// Gives the application its renderer for a window of `dimensions`,
    /// built on `vapi` from the driver's answer to the chain request for
    /// them. When the renderer cannot be built the application is left as it
    /// was.
    pub fn resumed(
        &mut self,
        vapi: VulkanConnection,
        dimensions: [u32; 2],
        chain: ChainReply,
        pacing: FramePacing,
    ) -> (done: Result<(), RenderError>)
        ensures
            match construction(vapi, dimensions, chain) {
                Ok(core) => {
                    &&& done is Ok
                    &&& final(self).running()
                    &&& final(self).state() == (RendererState {
                        vapi,
                        pacing,
                        phase: DrawPhase::Idle,
                        in_flight: Seq::<FrameMarker>::empty(),
                        core,
                    })
                    &&& final(self).well_formed()
                },
                Err(refusal) => done == Err::<(), RenderError>(refusal) && *final(self) == *old(
                    self,
                ),
            },
    {
        match Renderer::new(vapi, dimensions, chain, pacing) {
            Ok(renderer) => {
                self.renderer = Some(renderer);
                Ok(())
            },
            Err(refusal) => Err(refusal),
        }
    }

    /// Says what to do about an event of the window.
    pub fn window_event(&self, event: WindowEvent) -> (action: AppAction)
        requires
            self.running(),
        ensures
            action == dispatch(event),
    {
        match event {
            WindowEvent::CloseRequested => AppAction::Exit,
            WindowEvent::Resized { width, height } => AppAction::Recreate {
                dimensions: [width, height],
            },
            WindowEvent::RedrawRequested => AppAction::Draw,
            WindowEvent::Other => AppAction::Nothing,
        }
    }

    /// The renderer of a running application.
    pub fn renderer(&mut self) -> (renderer: &mut Renderer)
        requires
            old(self).running(),
        ensures
            *renderer == old(self).held()->Some_0,
            renderer@ == old(self).state(),
            final(self).held() == Some(*final(renderer)),
    {
        match &mut self.renderer {
            Some(renderer) => renderer,
            None => unreached(),
        }
    }
}

} // verus!
