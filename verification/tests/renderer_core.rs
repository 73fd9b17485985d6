use vulkan_triangle::error::RenderError;
use vulkan_triangle::error::SetupFailure;
use vulkan_triangle::prepare::get_command_buffers;
use vulkan_triangle::prepare::get_framebuffers;
use vulkan_triangle::prepare::get_images;
use vulkan_triangle::prepare::get_mvp_buffer;
use vulkan_triangle::prepare::get_pipeline;
use vulkan_triangle::prepare::get_render_pass;
use vulkan_triangle::prepare::get_viewport;
use vulkan_triangle::prepare::record;
use vulkan_triangle::prepare::Command;
use vulkan_triangle::prepare::ImageUsage;
use vulkan_triangle::prepare::SwapchainCreateInfo;
use vulkan_triangle::renderer_core::buffer_structs::MyVertex;
use vulkan_triangle::renderer_core::ChainReply;
use vulkan_triangle::renderer_core::RendererCore;
use vulkan_triangle::vulkan_api_connection::CompositeAlpha;
use vulkan_triangle::vulkan_api_connection::SurfaceCapabilities;
use vulkan_triangle::vulkan_api_connection::SurfaceFormat;
use vulkan_triangle::vulkan_api_connection::VulkanConnection;

fn link() -> VulkanConnection {
    VulkanConnection {
        physical_device: 0,
        queue_family_index: 0,
        surface_caps: SurfaceCapabilities {
            min_image_count: 2,
            supported_composite_alpha: vec![CompositeAlpha::Opaque],
        },
        surface_formats: vec![SurfaceFormat { format: 44, color_space: 0 }],
    }
}

fn chain(extent: [u32; 2]) -> SwapchainCreateInfo {
    SwapchainCreateInfo {
        min_image_count: 3,
        image_format: 44,
        image_extent: extent,
        image_usage: ImageUsage { color_attachment: true, transfer_src: false },
        composite_alpha: CompositeAlpha::Opaque,
    }
}

fn built(dimensions: [u32; 2], image_count: usize) -> RendererCore {
    match RendererCore::new(&link(), dimensions, ChainReply::Created { image_count }) {
        Ok(core) => core,
        Err(error) => panic!("construction failed: {}", error.describe()),
    }
}

/// Holds a set against the pieces made one by one for the same chain.
fn assert_is_set_of(core: &RendererCore, extent: [u32; 2], image_count: usize) {
    let info = chain(extent);
    let images = get_images(&info, image_count);
    let render_pass = get_render_pass(&info);
    let framebuffers = get_framebuffers(&images, &render_pass);
    let viewport = get_viewport(extent);
    let vertices = RendererCore::get_triangle_vertex_buffer();
    assert_eq!(core.swapchain(), info);
    assert_eq!(core.image_count(), image_count);
    assert_eq!(core.images(), &images);
    assert_eq!(core.render_pass(), render_pass);
    assert_eq!(core.framebuffers(), &framebuffers);
    assert_eq!(core.viewport(), viewport);
    assert_eq!(core.viewport().extent, extent);
    assert_eq!(core.pipeline(), get_pipeline(&render_pass, viewport));
    assert_eq!(core.vertex_buffer(), &vertices);
    assert_eq!(core.mvp(), get_mvp_buffer(&viewport));
    assert_eq!(core.command_buffers().len(), image_count);
    let expected = get_command_buffers(&framebuffers, &vertices, true);
    for i in 0..image_count {
        assert_eq!(core.command_buffers()[i].commands, expected[i].commands);
        assert_eq!(core.command_buffers()[i].commands, record(i, 3, true).commands);
    }
}

#[test]
fn construction_builds_every_part_for_the_chain() {
    assert_is_set_of(&built([1024, 1024], 3), [1024, 1024], 3);
    assert_is_set_of(&built([800, 600], 2), [800, 600], 2);
    assert_is_set_of(&built([1, 1], 0), [1, 1], 0);
}

#[test]
fn constructing_twice_gives_the_same_content() {
    let first = built([1024, 768], 3);
    let second = built([1024, 768], 3);
    assert_eq!(first.swapchain(), second.swapchain());
    assert_eq!(first.images(), second.images());
    assert_eq!(first.framebuffers(), second.framebuffers());
    assert_eq!(first.viewport(), second.viewport());
    assert_eq!(first.pipeline(), second.pipeline());
    assert_eq!(first.vertex_buffer(), second.vertex_buffer());
    assert_eq!(first.mvp(), second.mvp());
    assert_eq!(first.command_buffers().len(), second.command_buffers().len());
    for i in 0..3 {
        assert_eq!(first.command_buffers()[i].commands, second.command_buffers()[i].commands);
        match (first.command_buffers()[i].commands[0], second.command_buffers()[i].commands[0]) {
            (
                Command::BeginRenderPass { clear_color: one, .. },
                Command::BeginRenderPass { clear_color: other, .. },
            ) => assert_eq!(one, other),
            _ => panic!("a command sequence does not begin with its render pass"),
        }
    }
}

#[test]
fn construction_is_refused_as_the_chain_request_is() {
    let reply = ChainReply::Created { image_count: 3 };
    let mut vapi = link();
    vapi.surface_caps.supported_composite_alpha = vec![];
    assert_eq!(
        RendererCore::new(&vapi, [800, 600], reply).err(),
        Some(RenderError::SetupFailure(SetupFailure::NoCompositeAlpha))
    );
    let mut vapi = link();
    vapi.surface_formats = vec![];
    assert_eq!(
        RendererCore::new(&vapi, [800, 600], reply).err(),
        Some(RenderError::SetupFailure(SetupFailure::NoSurfaceFormat))
    );
    let mut vapi = link();
    vapi.surface_caps.min_image_count = u32::MAX;
    assert_eq!(
        RendererCore::new(&vapi, [800, 600], reply).err(),
        Some(RenderError::SetupFailure(SetupFailure::ImageCountOverflow))
    );
    assert_eq!(
        RendererCore::new(&link(), [0, 600], reply).err(),
        Some(RenderError::SetupFailure(SetupFailure::ChainRejected))
    );
}

#[test]
fn construction_fails_when_the_driver_rejects_the_chain() {
    assert_eq!(
        RendererCore::new(&link(), [800, 600], ChainReply::Rejected).err(),
        Some(RenderError::SetupFailure(SetupFailure::ChainRejected))
    );
    // A refused request is reported before the driver's answer is looked at.
    let mut vapi = link();
    vapi.surface_formats = vec![];
    assert_eq!(
        RendererCore::new(&vapi, [800, 600], ChainReply::Rejected).err(),
        Some(RenderError::SetupFailure(SetupFailure::NoSurfaceFormat))
    );
}

#[test]
fn the_recreate_request_inherits_all_but_the_extent() {
    let core = built([1024, 1024], 3);
    assert_eq!(core.recreate_request([640, 480]), Ok(chain([640, 480])));
    assert_eq!(core.recreate_request([0, 480]), Err(RenderError::ChainStale));
    assert_eq!(core.recreate_request([640, 0]), Err(RenderError::ChainStale));
}

#[test]
fn after_a_resize_the_counts_agree_and_the_viewport_fits() {
    let sizes: [[u32; 2]; 6] =
        [[1, 1], [640, 480], [1920, 1080], [1, 4096], [4096, 1], [u32::MAX, u32::MAX]];
    let counts: [usize; 5] = [0, 1, 2, 3, 8];
    let mut core = built([1024, 1024], 3);
    for dimensions in sizes {
        for image_count in counts {
            assert_eq!(core.recreate(dimensions, ChainReply::Created { image_count }), Ok(()));
            assert_eq!(core.command_buffers().len(), core.image_count());
            assert_eq!(core.image_count(), image_count);
            assert_eq!(core.viewport().extent, dimensions);
            assert_is_set_of(&core, dimensions, image_count);
        }
    }
}

#[test]
fn a_rejected_recreation_leaves_the_set_as_it_was() {
    let mut core = built([1024, 1024], 3);
    assert_eq!(core.recreate([640, 480], ChainReply::Rejected), Err(RenderError::ChainStale));
    assert_is_set_of(&core, [1024, 1024], 3);
}

#[test]
fn a_recreation_for_no_width_or_no_height_leaves_the_set_as_it_was() {
    let mut core = built([1024, 1024], 3);
    let reply = ChainReply::Created { image_count: 2 };
    assert_eq!(core.recreate([0, 480], reply), Err(RenderError::ChainStale));
    assert_eq!(core.recreate([640, 0], reply), Err(RenderError::ChainStale));
    assert_eq!(core.recreate([0, 0], reply), Err(RenderError::ChainStale));
    assert_is_set_of(&core, [1024, 1024], 3);
}

#[test]
fn recreation_keeps_the_vertices() {
    let mut core = built([1024, 1024], 3);
    let before = core.vertex_buffer().clone();
    assert_eq!(core.recreate([300, 200], ChainReply::Created { image_count: 4 }), Ok(()));
    assert_eq!(core.vertex_buffer(), &before);
    assert_eq!(core.mvp().proj.right, 200);
    assert_eq!(core.mvp().proj.top, 200);
}

#[test]
fn the_set_draws_its_own_triangle() {
    let expected = vec![
        MyVertex { position: [100, 100], color: [255, 0, 35] },
        MyVertex { position: [200, 100], color: [0, 255, 50] },
        MyVertex { position: [150, 200], color: [0, 100, 255] },
    ];
    assert_eq!(RendererCore::get_triangle_vertex_buffer(), expected);
    assert_eq!(built([640, 480], 2).vertex_buffer(), &expected);
    assert_ne!(
        RendererCore::get_triangle_vertex_buffer(),
        vulkan_triangle::prepare::get_triangle_vertex_buffer()
    );
}
