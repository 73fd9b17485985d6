//! The frame resource set: everything that depends on the window's size.

pub mod buffer_structs;

use vstd::prelude::*;

use crate::error::RenderError;
use crate::error::SetupFailure;
use crate::prepare::commands_of;
use crate::prepare::create_swapchain;
use crate::prepare::chain_request;
use crate::prepare::framebuffers_for;
use crate::prepare::get_command_buffers;
use crate::prepare::get_framebuffers;
use crate::prepare::get_images;
use crate::prepare::get_mvp_buffer;
use crate::prepare::get_pipeline;
use crate::prepare::get_render_pass;
use crate::prepare::get_viewport;
use crate::prepare::images_of;
use crate::prepare::mvp_for;
use crate::prepare::pipeline_for;
use crate::prepare::recording;
use crate::prepare::recordings;
use crate::prepare::render_pass_for;
use crate::prepare::viewport_for;
use crate::prepare::Command;
use crate::prepare::CommandBuffer;
use crate::prepare::Framebuffer;
use crate::prepare::Image;
use crate::prepare::Mvp;
use crate::prepare::Pipeline;
use crate::prepare::RenderPass;
use crate::prepare::SwapchainCreateInfo;
use crate::prepare::Viewport;
use crate::renderer_core::buffer_structs::MyVertex;
use crate::vulkan_api_connection::VulkanConnection;

verus! {

/// What the driver answered when it was asked for a chain.
#[derive(Clone, Copy, Debug, PartialEq, Eq, Structural)]
pub enum ChainReply {
    /// The chain exists and holds this many images.
    Created { image_count: usize },
    Rejected,
}

/// What a frame resource set holds.
pub struct FrameResources {
    pub swapchain: SwapchainCreateInfo,
    pub images: Seq<Image>,
    pub render_pass: RenderPass,
    pub framebuffers: Seq<Framebuffer>,
    pub viewport: Viewport,
    pub pipeline: Pipeline,
    pub vertex_buffer: Seq<MyVertex>,
    pub mvp: Mvp,
    pub command_buffers: Seq<Seq<Command>>,
}

/// The frame resource set for a chain of `image_count` images built from
/// `swapchain`, drawing `vertex_buffer`: the render pass has the chain's
/// format, each image has its framebuffer, the viewport covers the chain's
/// extent, the pipeline draws through that viewport, the transform is the one
/// for that viewport, and each framebuffer has its command sequence.
pub open spec fn frame_resources(
    swapchain: SwapchainCreateInfo,
    image_count: nat,
    vertex_buffer: Seq<MyVertex>,
) -> FrameResources {
    let images = images_of(swapchain, image_count);
    let render_pass = render_pass_for(swapchain.image_format);
    let viewport = viewport_for(swapchain.image_extent);
    FrameResources {
        swapchain,
        images,
        render_pass,
        framebuffers: framebuffers_for(images, render_pass),
        viewport,
        pipeline: pipeline_for(render_pass, viewport),
        vertex_buffer,
        mvp: mvp_for(viewport),
        command_buffers: recordings(image_count, vertex_buffer.len() as u32, true),
    }
}

/// The triangle that the set draws: three corners, each with its own
/// colour.
pub open spec fn triangle() -> Seq<MyVertex> {
    seq![
        MyVertex { position: [100, 100], color: [255, 0, 35] },
        MyVertex { position: [200, 100], color: [0, 255, 50] },
        MyVertex { position: [150, 200], color: [0, 100, 255] },
    ]
}

/// `swapchain` at another extent, all else as it was.
pub open spec fn resized(swapchain: SwapchainCreateInfo, dimensions: [u32; 2]) -> SwapchainCreateInfo {
    SwapchainCreateInfo { image_extent: dimensions, ..swapchain }
}

/// What construction gives for a connection, the initial dimensions and the
/// driver's answer to the chain request: the request's refusal, if it was
/// refused; `ChainRejected` if the driver rejected the chain; else the frame
/// resource set of the chain, drawing the triangle.
pub open spec fn construction(
    vapi: VulkanConnection,
    dimensions: [u32; 2],
    chain: ChainReply,
) -> Result<FrameResources, RenderError> {
    match chain_request(vapi, dimensions) {
        Err(refusal) => Err(refusal),
        Ok(swapchain) => match chain {
            ChainReply::Rejected => Err(RenderError::SetupFailure(SetupFailure::ChainRejected)),
            ChainReply::Created { image_count } => Ok(
                frame_resources(swapchain, image_count as nat, triangle()),
            ),
        },
    }
}

/// What recreation gives for a set, the new dimensions and the driver's
/// answer: `ChainStale` if a dimension is zero or the driver rejected the
/// chain; else the frame resource set of the new chain, which has the old
/// chain's parameters but for its extent, drawing the same vertices.
pub open spec fn recreation(
    resources: FrameResources,
    dimensions: [u32; 2],
    chain: ChainReply,
) -> Result<FrameResources, RenderError> {
    if dimensions[0] == 0 || dimensions[1] == 0 {
        Err(RenderError::ChainStale)
    } else {
        match chain {
            ChainReply::Rejected => Err(RenderError::ChainStale),
            ChainReply::Created { image_count } => Ok(
                frame_resources(
                    resized(resources.swapchain, dimensions),
                    image_count as nat,
                    resources.vertex_buffer,
                ),
            ),
        }
    }
}

impl FrameResources {
    /// Every part is the one that belongs to the chain and the vertices.
    pub open spec fn well_formed(self) -> bool {
        &&& self.vertex_buffer.len() <= u32::MAX
        &&& self == frame_resources(self.swapchain, self.images.len(), self.vertex_buffer)
    }
}

/// The frame resource set. It is built whole and rebuilt whole.
pub struct RendererCore {
    swapchain: SwapchainCreateInfo,
    images: Vec<Image>,
    render_pass: RenderPass,
    framebuffers: Vec<Framebuffer>,
    viewport: Viewport,
    pipeline: Pipeline,
    vertex_buffer: Vec<MyVertex>,
    mvp: Mvp,
    command_buffers: Vec<CommandBuffer>,
}

impl View for RendererCore {
    type V = FrameResources;

    closed spec fn view(&self) -> FrameResources {
        FrameResources {
            swapchain: self.swapchain,
            images: self.images@,
            render_pass: self.render_pass,
            framebuffers: self.framebuffers@,
            viewport: self.viewport,
            pipeline: self.pipeline,
            vertex_buffer: self.vertex_buffer@,
            mvp: self.mvp,
            command_buffers: commands_of(self.command_buffers@),
        }
    }
}

impl RendererCore {
    /// Builds the frame resource set for `dimensions`, given what the driver
    /// answered to the chain request `create_swapchain(vapi, dimensions)`.
    pub fn new(vapi: &VulkanConnection, dimensions: [u32; 2], chain: ChainReply) -> (made: Result<
        RendererCore,
        RenderError,
    >)
        ensures
            match construction(*vapi, dimensions, chain) {
                Ok(resources) => made is Ok && made->Ok_0@ == resources,
                Err(refusal) => made == Err::<RendererCore, RenderError>(refusal),
            },
            made is Ok ==> made->Ok_0@.well_formed(),
    {
        let swapchain = match create_swapchain(vapi, dimensions) {
            Ok(swapchain) => swapchain,
            Err(refusal) => { return Err(refusal); },
        };
        let image_count = match chain {
            ChainReply::Created { image_count } => image_count,
            ChainReply::Rejected => {
                return Err(RenderError::SetupFailure(SetupFailure::ChainRejected));
            },
        };
        let images = get_images(&swapchain, image_count);
        let render_pass = get_render_pass(&swapchain);
        let framebuffers = get_framebuffers(&images, &render_pass);
        let viewport = get_viewport(dimensions);
        let pipeline = get_pipeline(&render_pass, viewport);
        let vertex_buffer = RendererCore::get_triangle_vertex_buffer();
        let mvp = get_mvp_buffer(&viewport);
        let command_buffers = get_command_buffers(&framebuffers, &vertex_buffer, true);
        let core = RendererCore {
            swapchain,
            images,
            render_pass,
            framebuffers,
            viewport,
            pipeline,
            vertex_buffer,
            mvp,
            command_buffers,
        };
        Ok(core)
    }

    /// The contents of the set's vertex buffer: its triangle.
    pub fn get_triangle_vertex_buffer() -> (points: Vec<MyVertex>)
        ensures
            points@ == triangle(),
    {
        let mut points: Vec<MyVertex> = Vec::new();
        points.push(MyVertex { position: [100, 100], color: [255, 0, 35] });
        points.push(MyVertex { position: [200, 100], color: [0, 255, 50] });
        points.push(MyVertex { position: [150, 200], color: [0, 100, 255] });
        points
    }

    /// The chain to ask the driver for when the window has become
    /// `dimensions`: the present chain's parameters at the new extent.
    /// `ChainStale` when a dimension is zero: there is no such chain.
    pub fn recreate_request(&self, dimensions: [u32; 2]) -> (request: Result<
        SwapchainCreateInfo,
        RenderError,
    >)
        ensures
            request == if dimensions[0] == 0 || dimensions[1] == 0 {
                Err::<SwapchainCreateInfo, RenderError>(RenderError::ChainStale)
            } else {
                Ok::<SwapchainCreateInfo, RenderError>(resized(self@.swapchain, dimensions))
            },
    {
        if dimensions[0] == 0 || dimensions[1] == 0 {
            return Err(RenderError::ChainStale);
        }
        Ok(
            SwapchainCreateInfo {
                min_image_count: self.swapchain.min_image_count,
                image_format: self.swapchain.image_format,
                image_extent: dimensions,
                image_usage: self.swapchain.image_usage,
                composite_alpha: self.swapchain.composite_alpha,
            },
        )
    }

    /// Rebuilds everything that depends on the window's size for
    /// `dimensions`, given what the driver answered to
    /// `recreate_request(dimensions)`. On `ChainStale` the set is left as it
    /// was.
    ///
    /// Afterwards there are as many command sequences as chain images, and
    /// the viewport's extent is `dimensions`.
    pub fn recreate(&mut self, dimensions: [u32; 2], chain: ChainReply) -> (done: Result<
        (),
        RenderError,
    >)
        requires
            old(self)@.well_formed(),
        ensures
            match recreation(old(self)@, dimensions, chain) {
                Ok(resources) => done is Ok && final(self)@ == resources,
                Err(refusal) => done == Err::<(), RenderError>(refusal) && final(self)@ == old(
                    self,
                )@,
            },
            final(self)@.well_formed(),
            final(self)@.command_buffers.len() == final(self)@.images.len(),
            done is Ok ==> final(self)@.viewport.extent == dimensions,
    {
        let swapchain = match self.recreate_request(dimensions) {
            Ok(swapchain) => swapchain,
            Err(refusal) => { return Err(refusal); },
        };
        let image_count = match chain {
            ChainReply::Created { image_count } => image_count,
            ChainReply::Rejected => { return Err(RenderError::ChainStale); },
        };
        self.swapchain = swapchain;
        self.images = get_images(&self.swapchain, image_count);
        self.framebuffers = get_framebuffers(&self.images, &self.render_pass);
        self.viewport = get_viewport(dimensions);
        self.pipeline = get_pipeline(&self.render_pass, self.viewport);
        self.mvp = get_mvp_buffer(&self.viewport);
        self.command_buffers = get_command_buffers(&self.framebuffers, &self.vertex_buffer, true);
        Ok(())
    }

    /// The number of images in the chain.
    pub fn image_count(&self) -> (count: usize)
        ensures
            count == self@.images.len(),
    {
        self.images.len()
    }

    /// The parameters of the chain.
    pub fn swapchain(&self) -> (swapchain: SwapchainCreateInfo)
        ensures
            swapchain == self@.swapchain,
    {
        self.swapchain
    }

    /// The images of the chain.
    pub fn images(&self) -> (images: &Vec<Image>)
        ensures
            images@ == self@.images,
    {
        &self.images
    }

    /// The render pass.
    pub fn render_pass(&self) -> (render_pass: RenderPass)
        ensures
            render_pass == self@.render_pass,
    {
        self.render_pass
    }

    /// The framebuffers, one for each image.
    pub fn framebuffers(&self) -> (framebuffers: &Vec<Framebuffer>)
        ensures
            framebuffers@ == self@.framebuffers,
    {
        &self.framebuffers
    }

    /// The viewport.
    pub fn viewport(&self) -> (viewport: Viewport)
        ensures
            viewport == self@.viewport,
    {
        self.viewport
    }

    /// The pipeline.
    pub fn pipeline(&self) -> (pipeline: Pipeline)
        ensures
            pipeline == self@.pipeline,
    {
        self.pipeline
    }

    /// The vertices that are drawn.
    pub fn vertex_buffer(&self) -> (points: &Vec<MyVertex>)
        ensures
            points@ == self@.vertex_buffer,
    {
        &self.vertex_buffer
    }

    /// The contents of the transform uniform.
    pub fn mvp(&self) -> (mvp: Mvp)
        ensures
            mvp == self@.mvp,
    {
        self.mvp
    }

    /// The command sequences, one for each image.
    pub fn command_buffers(&self) -> (buffers: &Vec<CommandBuffer>)
        ensures
            commands_of(buffers@) == self@.command_buffers,
    {
        &self.command_buffers
    }
}

/// In a well-formed set there are as many command sequences, and as many
/// framebuffers, as chain images, and the viewport's extent is the chain's.
pub proof fn set_is_consistent(resources: FrameResources)
    requires
        resources.well_formed(),
    ensures
        resources.command_buffers.len() == resources.images.len(),
        resources.framebuffers.len() == resources.images.len(),
        resources.viewport.extent == resources.swapchain.image_extent,
        resources.pipeline.viewport == resources.viewport,
        resources.render_pass.format == resources.swapchain.image_format,
{
}

/// After a recreation that succeeded there are as many command sequences,
/// and as many framebuffers, as chain images; the viewport's extent is the
/// new dimensions; and the `i`-th command sequence draws to the `i`-th
/// framebuffer, which is bound to the `i`-th image. Recreation succeeds
/// whenever no dimension is zero and the driver made the chain.
pub proof fn recreation_fits_the_window(
    resources: FrameResources,
    dimensions: [u32; 2],
    image_count: usize,
)
    requires
        resources.well_formed(),
        dimensions[0] > 0,
        dimensions[1] > 0,
    ensures
        recreation(resources, dimensions, ChainReply::Created { image_count }) is Ok,
        ({
            let rebuilt = recreation(
                resources,
                dimensions,
                ChainReply::Created { image_count },
            )->Ok_0;
            &&& rebuilt.well_formed()
            &&& rebuilt.images.len() == image_count
            &&& rebuilt.command_buffers.len() == rebuilt.images.len()
            &&& rebuilt.framebuffers.len() == rebuilt.images.len()
            &&& rebuilt.viewport.extent == dimensions
            &&& rebuilt.swapchain.image_extent == dimensions
            &&& rebuilt.pipeline.viewport == rebuilt.viewport
            &&& rebuilt.vertex_buffer == resources.vertex_buffer
            &&& forall|i: int|
                0 <= i < image_count ==> {
                    &&& (#[trigger] rebuilt.framebuffers[i]).image == i
                    &&& rebuilt.framebuffers[i].extent == dimensions
                }
            &&& forall|i: int|
                0 <= i < image_count ==> #[trigger] rebuilt.command_buffers[i] == recording(
                    i as usize,
                    resources.vertex_buffer.len() as u32,
                    true,
                )
        }),
{
}

/// Two sets constructed for the same connection, the same dimensions and
/// the same answer of the driver hold the same: the same vertices, the same
/// viewport, the same command sequences, each of which clears its target to
/// the same colour.
pub proof fn construction_is_repeatable(
    vapi: VulkanConnection,
    dimensions: [u32; 2],
    chain: ChainReply,
    first: FrameResources,
    second: FrameResources,
)
    requires
        construction(vapi, dimensions, chain) == Ok::<FrameResources, RenderError>(first),
        construction(vapi, dimensions, chain) == Ok::<FrameResources, RenderError>(second),
    ensures
        first == second,
        first.vertex_buffer == triangle(),
        first.viewport == viewport_for(dimensions),
        first.command_buffers == second.command_buffers,
        forall|i: int|
            0 <= i < first.command_buffers.len() ==> (#[trigger] first.command_buffers[i])[0] == (
            Command::BeginRenderPass {
                framebuffer: i as usize,
                clear_color: crate::prepare::background(),
            }),
{
}

/// Construction succeeds exactly when the chain request is not refused and
/// the driver made the chain, and what it then builds is well formed.
pub proof fn construction_succeeds(vapi: VulkanConnection, dimensions: [u32; 2], chain: ChainReply)
    ensures
        construction(vapi, dimensions, chain) is Ok <==> chain_request(vapi, dimensions) is Ok
            && chain is Created,
        construction(vapi, dimensions, chain) is Ok ==> construction(
            vapi,
            dimensions,
            chain,
        )->Ok_0.well_formed(),
{
}

} // verus!
