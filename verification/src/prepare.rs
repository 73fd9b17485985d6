//! The pieces of a frame resource set, each described by the values that
//! the driver is given to build it.

use vstd::prelude::*;

use crate::error::RenderError;
use crate::error::SetupFailure;
use crate::renderer_core::buffer_structs::MyVertex;
use crate::vulkan_api_connection::CompositeAlpha;
use crate::vulkan_api_connection::VulkanConnection;

verus! {

/// What the images of a chain are used for.
#[derive(Clone, Copy, Debug, PartialEq, Eq, Structural)]
pub struct ImageUsage {
    pub color_attachment: bool,
    pub transfer_src: bool,
}

/// The parameters of a presentation chain.
#[derive(Clone, Copy, Debug, PartialEq, Eq)]
pub struct SwapchainCreateInfo {
    /// The least number of images that the chain is to hold.
    pub min_image_count: u32,
    /// The colour format of the images, by the driver's number.
    pub image_format: i32,
    /// Width and height of the images, in pixels.
    pub image_extent: [u32; 2],
    pub image_usage: ImageUsage,
    pub composite_alpha: CompositeAlpha,
}

/// One presentable image of a chain.
#[derive(Clone, Copy, Debug, PartialEq, Eq)]
pub struct Image {
    pub format: i32,
    pub extent: [u32; 2],
}

/// What becomes of an attachment's contents when a pass begins.
#[derive(Clone, Copy, Debug, PartialEq, Eq, Structural)]
pub enum AttachmentLoadOp {
    Load,
    Clear,
    DontCare,
}

/// What becomes of an attachment's contents when a pass ends.
#[derive(Clone, Copy, Debug, PartialEq, Eq, Structural)]
pub enum AttachmentStoreOp {
    Store,
    DontCare,
}

/// A render pass with one subpass and one colour attachment.
#[derive(Clone, Copy, Debug, PartialEq, Eq, Structural)]
pub struct RenderPass {
    pub format: i32,
    pub samples: u32,
    pub load_op: AttachmentLoadOp,
    pub store_op: AttachmentStoreOp,
}

/// A render pass bound to the default view of one image of the chain.
#[derive(Clone, Copy, Debug, PartialEq, Eq)]
pub struct Framebuffer {
    pub render_pass: RenderPass,
    /// The position in the chain of the image that is drawn to.
    pub image: usize,
    pub extent: [u32; 2],
}

/// The rectangle of the target that is drawn to, and its depth range.
#[derive(Clone, Copy, Debug, PartialEq, Eq)]
pub struct Viewport {
    pub offset: [u32; 2],
    pub extent: [u32; 2],
    pub min_depth: u32,
    pub max_depth: u32,
}

/// The format of one attribute of a vertex.
#[derive(Clone, Copy, Debug, PartialEq, Eq, Structural)]
pub enum VertexFormat {
    /// Two signed 32-bit integers.
    R32G32Sint,
    /// Three unsigned 8-bit integers.
    R8G8B8Uint,
}

/// Where one attribute of a vertex lies in its record, and where the vertex
/// shader takes it.
#[derive(Clone, Copy, Debug, PartialEq, Eq, Structural)]
pub struct VertexAttribute {
    pub location: u32,
    pub format: VertexFormat,
    /// The attribute's distance from the start of the record, in bytes.
    pub offset: u32,
}

/// How the vertex records lie in the vertex buffer.
#[derive(Clone, Copy, Debug, PartialEq, Eq)]
pub struct VertexInput {
    /// The distance from one record to the next, in bytes.
    pub stride: u32,
    pub attributes: [VertexAttribute; 2],
}

/// What a graphics pipeline is built from, besides the fixed pair of shaders
/// and the default rasterization, multisample and blend state.
#[derive(Clone, Copy, Debug, PartialEq, Eq)]
pub struct Pipeline {
    pub viewport: Viewport,
    pub vertex_input: VertexInput,
    pub render_pass: RenderPass,
    /// The subpass of the render pass that the pipeline draws in.
    pub subpass: u32,
    /// The number of colour attachments that get a blend state.
    pub color_attachments: u32,
}

/// The box that the orthographic projection maps to the visible volume.
#[derive(Clone, Copy, Debug, PartialEq, Eq, Structural)]
pub struct Orthographic {
    pub left: u32,
    pub right: u32,
    pub bottom: u32,
    pub top: u32,
    pub znear: i32,
    pub zfar: i32,
}

/// The contents of the transform uniform: model and view are the identity,
/// the projection is orthographic.
#[derive(Clone, Copy, Debug, PartialEq, Eq, Structural)]
pub struct Mvp {
    pub proj: Orthographic,
}

/// A colour that a target is cleared to, each channel in tenths of full
/// intensity.
#[derive(Clone, Copy, Debug, PartialEq, Eq, Structural)]
pub struct ClearColor {
    pub red: u8,
    pub green: u8,
    pub blue: u8,
    pub alpha: u8,
}

/// One recorded command.
#[derive(Clone, Copy, Debug, PartialEq, Eq, Structural)]
pub enum Command {
    BeginRenderPass { framebuffer: usize, clear_color: ClearColor },
    BindPipelineGraphics,
    BindDescriptorSets { first_set: u32 },
    BindVertexBuffers { first_binding: u32 },
    Draw { vertex_count: u32, instance_count: u32, first_vertex: u32, first_instance: u32 },
    EndRenderPass,
}

/// A recorded command sequence, which may be submitted many times.
#[derive(Clone, Debug)]
pub struct CommandBuffer {
    pub commands: Vec<Command>,
}

/// The background: a dark grey, opaque.
pub open spec fn background() -> ClearColor {
    ClearColor { red: 1, green: 1, blue: 1, alpha: 10 }
}

/// A triangle with a red, a green and a blue corner.
pub open spec fn triangle() -> Seq<MyVertex> {
    seq![
        MyVertex { position: [100, 100], color: [255, 0, 0] },
        MyVertex { position: [0, 100], color: [0, 255, 0] },
        MyVertex { position: [100, 25], color: [0, 0, 255] },
    ]
}

/// The chain that a connection is asked for at `dimensions`: the first
/// composite-alpha mode and the first format that the surface supports, one
/// image more than its minimum, images used as colour attachments. It is
/// refused when the surface supports no mode or no format, when the count
/// cannot be raised, or when a dimension is zero.
pub open spec fn chain_request(vapi: VulkanConnection, dimensions: [u32; 2]) -> Result<
    SwapchainCreateInfo,
    RenderError,
> {
    if vapi.surface_caps.supported_composite_alpha@.len() == 0 {
        Err(RenderError::SetupFailure(SetupFailure::NoCompositeAlpha))
    } else if vapi.surface_formats@.len() == 0 {
        Err(RenderError::SetupFailure(SetupFailure::NoSurfaceFormat))
    } else if vapi.surface_caps.min_image_count == u32::MAX {
        Err(RenderError::SetupFailure(SetupFailure::ImageCountOverflow))
    } else if dimensions[0] == 0 || dimensions[1] == 0 {
        Err(RenderError::SetupFailure(SetupFailure::ChainRejected))
    } else {
        Ok(
            SwapchainCreateInfo {
                min_image_count: (vapi.surface_caps.min_image_count + 1) as u32,
                image_format: vapi.surface_formats@[0].format,
                image_extent: dimensions,
                image_usage: ImageUsage { color_attachment: true, transfer_src: false },
                composite_alpha: vapi.surface_caps.supported_composite_alpha@[0],
            },
        )
    }
}

/// The images of a chain built from `info` that holds `count` of them.
pub open spec fn images_of(info: SwapchainCreateInfo, count: nat) -> Seq<Image> {
    Seq::new(count, |i: int| Image { format: info.image_format, extent: info.image_extent })
}

/// The render pass that draws to images of `format`: one sample, cleared
/// when the pass begins, stored when it ends.
pub open spec fn render_pass_for(format: i32) -> RenderPass {
    RenderPass {
        format,
        samples: 1,
        load_op: AttachmentLoadOp::Clear,
        store_op: AttachmentStoreOp::Store,
    }
}

/// One framebuffer for each image, in the order of the images.
pub open spec fn framebuffers_for(images: Seq<Image>, render_pass: RenderPass) -> Seq<Framebuffer> {
    Seq::new(
        images.len(),
        |i: int| Framebuffer { render_pass, image: i as usize, extent: images[i].extent },
    )
}

/// The viewport that covers a target of `dimensions`.
pub open spec fn viewport_for(dimensions: [u32; 2]) -> Viewport {
    Viewport { offset: [0, 0], extent: dimensions, min_depth: 0, max_depth: 1 }
}

/// How a `MyVertex` is read: one record after another, each with the
/// position at its start and the colour behind the position.
pub open spec fn vertex_input() -> VertexInput {
    VertexInput {
        stride: 12,
        attributes: [
            VertexAttribute { location: 0, format: VertexFormat::R32G32Sint, offset: 0 },
            VertexAttribute { location: 1, format: VertexFormat::R8G8B8Uint, offset: 8 },
        ],
    }
}

/// The pipeline that draws vertices read as `vertex_input()` through
/// `viewport` in the first subpass of `render_pass`, blending its one colour
/// attachment.
pub open spec fn pipeline_for(render_pass: RenderPass, viewport: Viewport) -> Pipeline {
    Pipeline { viewport, vertex_input: vertex_input(), render_pass, subpass: 0, color_attachments: 1 }
}

/// The transform for `viewport`: a box from the origin, as wide and as high
/// as the viewport is high, one unit deep to either side.
pub open spec fn mvp_for(viewport: Viewport) -> Mvp {
    Mvp {
        proj: Orthographic {
            left: 0,
            right: viewport.extent[1],
            bottom: 0,
            top: viewport.extent[1],
            znear: -1i32,
            zfar: 1,
        },
    }
}

/// The commands that draw `vertex_count` vertices, once, to `framebuffer`:
/// begin the pass on the cleared target, bind the pipeline, bind the
/// transform if there is one, bind the vertices, draw, end the pass.
pub open spec fn recording(framebuffer: usize, vertex_count: u32, transform: bool) -> Seq<Command> {
    let begin = seq![
        Command::BeginRenderPass { framebuffer, clear_color: background() },
        Command::BindPipelineGraphics,
    ];
    let bind = if transform {
        seq![Command::BindDescriptorSets { first_set: 0 }]
    } else {
        Seq::<Command>::empty()
    };
    let draw = seq![
        Command::BindVertexBuffers { first_binding: 0 },
        Command::Draw { vertex_count, instance_count: 1, first_vertex: 0, first_instance: 0 },
        Command::EndRenderPass,
    ];
    begin + bind + draw
}

/// One recording for each of `count` framebuffers, in their order.
pub open spec fn recordings(count: nat, vertex_count: u32, transform: bool) -> Seq<Seq<Command>> {
    Seq::new(count, |i: int| recording(i as usize, vertex_count, transform))
}

/// What each of `buffers` holds.
pub open spec fn commands_of(buffers: Seq<CommandBuffer>) -> Seq<Seq<Command>> {
    Seq::new(buffers.len(), |i: int| buffers[i].commands@)
}

/// The parameters of the chain to ask the driver for; see [`chain_request`].
pub fn create_swapchain(vapi: &VulkanConnection, dimensions: [u32; 2]) -> (request: Result<
    SwapchainCreateInfo,
    RenderError,
>)
    ensures
        request == chain_request(*vapi, dimensions),
{
    if vapi.surface_caps.supported_composite_alpha.len() == 0 {
        return Err(RenderError::SetupFailure(SetupFailure::NoCompositeAlpha));
    }
    let composite_alpha = vapi.surface_caps.supported_composite_alpha[0];
    if vapi.surface_formats.len() == 0 {
        return Err(RenderError::SetupFailure(SetupFailure::NoSurfaceFormat));
    }
    let image_format = vapi.surface_formats[0].format;
    let min_image_count = match vapi.surface_caps.min_image_count.checked_add(1) {
        Some(count) => count,
        None => { return Err(RenderError::SetupFailure(SetupFailure::ImageCountOverflow)); },
    };
    if dimensions[0] == 0 || dimensions[1] == 0 {
        return Err(RenderError::SetupFailure(SetupFailure::ChainRejected));
    }
    Ok(
        SwapchainCreateInfo {
            min_image_count,
            image_format,
            image_extent: dimensions,
            image_usage: ImageUsage { color_attachment: true, transfer_src: false },
            composite_alpha,
        },
    )
}

/// The images that a chain built from `info` holds when the driver made
/// `count` of them.
pub fn get_images(info: &SwapchainCreateInfo, count: usize) -> (images: Vec<Image>)
    ensures
        images@ == images_of(*info, count as nat),
{
    let mut images: Vec<Image> = Vec::new();
    let mut i: usize = 0;
    while i < count
        invariant
            i <= count,
            images@ == images_of(*info, i as nat),
        decreases count - i,
    {
        images.push(Image { format: info.image_format, extent: info.image_extent });
        i += 1;
    }
    images
}

/// The render pass for the images of `swapchain`.
pub fn get_render_pass(swapchain: &SwapchainCreateInfo) -> (render_pass: RenderPass)
    ensures
        render_pass == render_pass_for(swapchain.image_format),
{
    RenderPass {
        format: swapchain.image_format,
        samples: 1,
        load_op: AttachmentLoadOp::Clear,
        store_op: AttachmentStoreOp::Store,
    }
}

/// One framebuffer for each image: the `i`-th binds `render_pass` to the
/// `i`-th image.
pub fn get_framebuffers(images: &Vec<Image>, render_pass: &RenderPass) -> (framebuffers: Vec<
    Framebuffer,
>)
    ensures
        framebuffers@ == framebuffers_for(images@, *render_pass),
{
    let mut framebuffers: Vec<Framebuffer> = Vec::new();
    let mut i: usize = 0;
    while i < images.len()
        invariant
            i <= images.len(),
            framebuffers@ == framebuffers_for(images@.take(i as int), *render_pass),
        decreases images.len() - i,
    {
        framebuffers.push(
            Framebuffer { render_pass: *render_pass, image: i, extent: images[i].extent },
        );
        i += 1;
    }
    framebuffers
}

/// The viewport that covers a target of `dimensions`.
pub fn get_viewport(dimensions: [u32; 2]) -> (viewport: Viewport)
    ensures
        viewport == viewport_for(dimensions),
{
    Viewport { offset: [0, 0], extent: dimensions, min_depth: 0, max_depth: 1 }
}

/// How a `MyVertex` is read from the vertex buffer.
pub fn get_vertex_input() -> (layout: VertexInput)
    ensures
        layout == vertex_input(),
{
    VertexInput {
        stride: 12,
        attributes: [
            VertexAttribute { location: 0, format: VertexFormat::R32G32Sint, offset: 0 },
            VertexAttribute { location: 1, format: VertexFormat::R8G8B8Uint, offset: 8 },
        ],
    }
}

/// The pipeline that draws through `viewport` in `render_pass`.
pub fn get_pipeline(render_pass: &RenderPass, viewport: Viewport) -> (pipeline: Pipeline)
    ensures
        pipeline == pipeline_for(*render_pass, viewport),
{
    Pipeline {
        viewport,
        vertex_input: get_vertex_input(),
        render_pass: *render_pass,
        subpass: 0,
        color_attachments: 1,
    }
}

/// The contents of the transform uniform for `viewport`.
pub fn get_mvp_buffer(viewport: &Viewport) -> (mvp: Mvp)
    ensures
        mvp == mvp_for(*viewport),
{
    let side: u32 = viewport.extent[1];
    Mvp { proj: Orthographic { left: 0, right: side, bottom: 0, top: side, znear: -1, zfar: 1 } }
}

/// The contents of the vertex buffer: the triangle.
pub fn get_triangle_vertex_buffer() -> (points: Vec<MyVertex>)
    ensures
        points@ == triangle(),
{
    let mut points: Vec<MyVertex> = Vec::new();
    points.push(MyVertex { position: [100, 100], color: [255, 0, 0] });
    points.push(MyVertex { position: [0, 100], color: [0, 255, 0] });
    points.push(MyVertex { position: [100, 25], color: [0, 0, 255] });
    points
}

/// Records the commands that draw `vertex_count` vertices to `framebuffer`.
pub fn record(framebuffer: usize, vertex_count: u32, transform: bool) -> (buffer: CommandBuffer)
    ensures
        buffer.commands@ == recording(framebuffer, vertex_count, transform),
{
    let mut commands: Vec<Command> = Vec::new();
    commands.push(
        Command::BeginRenderPass {
            framebuffer,
            clear_color: ClearColor { red: 1, green: 1, blue: 1, alpha: 10 },
        },
    );
    commands.push(Command::BindPipelineGraphics);
    if transform {
        commands.push(Command::BindDescriptorSets { first_set: 0 });
    }
    commands.push(Command::BindVertexBuffers { first_binding: 0 });
    commands.push(
        Command::Draw { vertex_count, instance_count: 1, first_vertex: 0, first_instance: 0 },
    );
    commands.push(Command::EndRenderPass);
    CommandBuffer { commands }
}

/// One command sequence for each framebuffer: the `i`-th draws all of
/// `vertex_buffer` to the `i`-th framebuffer.
pub fn get_command_buffers(
    framebuffers: &Vec<Framebuffer>,
    vertex_buffer: &Vec<MyVertex>,
    transform: bool,
) -> (buffers: Vec<CommandBuffer>)
    requires
        vertex_buffer.len() <= u32::MAX,
    ensures
        commands_of(buffers@) == recordings(
            framebuffers@.len(),
            vertex_buffer@.len() as u32,
            transform,
        ),
{
    let vertex_count: u32 = vertex_buffer.len() as u32;
    let mut buffers: Vec<CommandBuffer> = Vec::new();
    let mut i: usize = 0;
    while i < framebuffers.len()
        invariant
            i <= framebuffers.len(),
            buffers@.len() == i,
            commands_of(buffers@) == recordings(i as nat, vertex_count, transform),
        decreases framebuffers.len() - i,
    {
        let ghost before = buffers@;
        let buffer = record(i, vertex_count, transform);
        buffers.push(buffer);
        assert(commands_of(buffers@) == recordings((i + 1) as nat, vertex_count, transform)) by {
            assert forall|k: int| 0 <= k < i implies commands_of(buffers@)[k] == recordings(
                (i + 1) as nat,
                vertex_count,
                transform,
            )[k] by {
                assert(buffers@[k] == before[k]);
                assert(commands_of(before)[k] == before[k].commands@);
            }
        }
        i += 1;
    }
    buffers
}

} // verus!
