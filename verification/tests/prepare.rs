use vulkan_triangle::error::RenderError;
use vulkan_triangle::error::SetupFailure;
use vulkan_triangle::prepare::create_swapchain;
use vulkan_triangle::prepare::get_command_buffers;
use vulkan_triangle::prepare::get_framebuffers;
use vulkan_triangle::prepare::get_images;
use vulkan_triangle::prepare::get_mvp_buffer;
use vulkan_triangle::prepare::get_pipeline;
use vulkan_triangle::prepare::get_render_pass;
use vulkan_triangle::prepare::get_triangle_vertex_buffer;
use vulkan_triangle::prepare::get_vertex_input;
use vulkan_triangle::prepare::get_viewport;
use vulkan_triangle::prepare::record;
use vulkan_triangle::prepare::AttachmentLoadOp;
use vulkan_triangle::prepare::AttachmentStoreOp;
use vulkan_triangle::prepare::ClearColor;
use vulkan_triangle::prepare::Command;
use vulkan_triangle::prepare::Framebuffer;
use vulkan_triangle::prepare::Image;
use vulkan_triangle::prepare::ImageUsage;
use vulkan_triangle::prepare::Mvp;
use vulkan_triangle::prepare::Orthographic;
use vulkan_triangle::prepare::Pipeline;
use vulkan_triangle::prepare::RenderPass;
use vulkan_triangle::prepare::SwapchainCreateInfo;
use vulkan_triangle::prepare::VertexAttribute;
use vulkan_triangle::prepare::VertexFormat;
use vulkan_triangle::prepare::VertexInput;
use vulkan_triangle::prepare::Viewport;
use vulkan_triangle::renderer_core::buffer_structs::MyVertex;
use vulkan_triangle::vulkan_api_connection::CompositeAlpha;
use vulkan_triangle::vulkan_api_connection::SurfaceCapabilities;
use vulkan_triangle::vulkan_api_connection::SurfaceFormat;
use vulkan_triangle::vulkan_api_connection::VulkanConnection;

fn connection() -> VulkanConnection {
    VulkanConnection {
        physical_device: 0,
        queue_family_index: 0,
        surface_caps: SurfaceCapabilities {
            min_image_count: 2,
            supported_composite_alpha: vec![CompositeAlpha::PreMultiplied, CompositeAlpha::Opaque],
        },
        surface_formats: vec![
            SurfaceFormat { format: 50, color_space: 0 },
            SurfaceFormat { format: 44, color_space: 0 },
        ],
    }
}

fn grey() -> ClearColor {
    ClearColor { red: 1, green: 1, blue: 1, alpha: 10 }
}

fn pass(format: i32) -> RenderPass {
    RenderPass {
        format,
        samples: 1,
        load_op: AttachmentLoadOp::Clear,
        store_op: AttachmentStoreOp::Store,
    }
}

#[test]
fn the_chain_request_takes_the_first_mode_the_first_format_and_one_more_image() {
    let request = create_swapchain(&connection(), [800, 600]);
    assert_eq!(
        request,
        Ok(SwapchainCreateInfo {
            min_image_count: 3,
            image_format: 50,
            image_extent: [800, 600],
            image_usage: ImageUsage { color_attachment: true, transfer_src: false },
            composite_alpha: CompositeAlpha::PreMultiplied,
        })
    );
}

#[test]
fn a_surface_without_a_composite_alpha_mode_is_refused() {
    let mut vapi = connection();
    vapi.surface_caps.supported_composite_alpha = vec![];
    assert_eq!(
        create_swapchain(&vapi, [800, 600]),
        Err(RenderError::SetupFailure(SetupFailure::NoCompositeAlpha))
    );
    // The mode is looked at before the formats.
    vapi.surface_formats = vec![];
    assert_eq!(
        create_swapchain(&vapi, [800, 600]),
        Err(RenderError::SetupFailure(SetupFailure::NoCompositeAlpha))
    );
}

#[test]
fn a_surface_without_a_format_is_refused() {
    let mut vapi = connection();
    vapi.surface_formats = vec![];
    assert_eq!(
        create_swapchain(&vapi, [800, 600]),
        Err(RenderError::SetupFailure(SetupFailure::NoSurfaceFormat))
    );
}

#[test]
fn an_image_count_that_cannot_be_raised_is_refused() {
    let mut vapi = connection();
    vapi.surface_caps.min_image_count = u32::MAX;
    assert_eq!(
        create_swapchain(&vapi, [800, 600]),
        Err(RenderError::SetupFailure(SetupFailure::ImageCountOverflow))
    );
    vapi.surface_caps.min_image_count = u32::MAX - 1;
    assert_eq!(create_swapchain(&vapi, [800, 600]).map(|info| info.min_image_count), Ok(u32::MAX));
    vapi.surface_caps.min_image_count = 0;
    assert_eq!(create_swapchain(&vapi, [800, 600]).map(|info| info.min_image_count), Ok(1));
}

#[test]
fn a_chain_of_no_width_or_no_height_is_refused() {
    let refused = Err(RenderError::SetupFailure(SetupFailure::ChainRejected));
    assert_eq!(create_swapchain(&connection(), [0, 600]), refused);
    assert_eq!(create_swapchain(&connection(), [800, 0]), refused);
    assert_eq!(create_swapchain(&connection(), [0, 0]), refused);
    assert!(create_swapchain(&connection(), [1, 1]).is_ok());
    assert!(create_swapchain(&connection(), [u32::MAX, u32::MAX]).is_ok());
}

#[test]
fn the_images_have_the_chains_format_and_extent() {
    let info = create_swapchain(&connection(), [640, 480]).unwrap();
    assert_eq!(get_images(&info, 0), vec![]);
    assert_eq!(
        get_images(&info, 3),
        vec![
            Image { format: 50, extent: [640, 480] },
            Image { format: 50, extent: [640, 480] },
            Image { format: 50, extent: [640, 480] },
        ]
    );
}

#[test]
fn the_render_pass_clears_and_stores_one_sample_of_the_chains_format() {
    let info = create_swapchain(&connection(), [640, 480]).unwrap();
    assert_eq!(get_render_pass(&info), pass(50));
}

#[test]
fn each_image_gets_its_framebuffer() {
    let images = vec![
        Image { format: 50, extent: [640, 480] },
        Image { format: 50, extent: [320, 240] },
    ];
    assert_eq!(
        get_framebuffers(&images, &pass(50)),
        vec![
            Framebuffer { render_pass: pass(50), image: 0, extent: [640, 480] },
            Framebuffer { render_pass: pass(50), image: 1, extent: [320, 240] },
        ]
    );
    assert_eq!(get_framebuffers(&vec![], &pass(50)), vec![]);
}

#[test]
fn the_viewport_covers_the_target() {
    assert_eq!(
        get_viewport([800, 600]),
        Viewport { offset: [0, 0], extent: [800, 600], min_depth: 0, max_depth: 1 }
    );
}

#[test]
fn the_pipeline_draws_through_the_viewport_in_the_first_subpass() {
    let viewport = get_viewport([800, 600]);
    assert_eq!(
        get_pipeline(&pass(50), viewport),
        Pipeline {
            viewport,
            vertex_input: get_vertex_input(),
            render_pass: pass(50),
            subpass: 0,
            color_attachments: 1,
        }
    );
}

#[test]
fn a_vertex_is_read_as_its_position_and_then_its_colour() {
    assert_eq!(
        get_vertex_input(),
        VertexInput {
            stride: 12,
            attributes: [
                VertexAttribute { location: 0, format: VertexFormat::R32G32Sint, offset: 0 },
                VertexAttribute { location: 1, format: VertexFormat::R8G8B8Uint, offset: 8 },
            ],
        }
    );
    assert_eq!(std::mem::size_of::<MyVertex>(), 12);
    assert_eq!(std::mem::size_of::<[i32; 2]>(), 8);
}

#[test]
fn the_projection_is_a_box_as_wide_and_high_as_the_viewport_is_high() {
    assert_eq!(
        get_mvp_buffer(&get_viewport([800, 600])),
        Mvp { proj: Orthographic { left: 0, right: 600, bottom: 0, top: 600, znear: -1, zfar: 1 } }
    );
    assert_eq!(
        get_mvp_buffer(&get_viewport([1024, 1024])),
        Mvp {
            proj: Orthographic { left: 0, right: 1024, bottom: 0, top: 1024, znear: -1, zfar: 1 }
        }
    );
}

#[test]
fn the_triangle_has_a_red_a_green_and_a_blue_corner() {
    assert_eq!(
        get_triangle_vertex_buffer(),
        vec![
            MyVertex { position: [100, 100], color: [255, 0, 0] },
            MyVertex { position: [0, 100], color: [0, 255, 0] },
            MyVertex { position: [100, 25], color: [0, 0, 255] },
        ]
    );
}

#[test]
fn a_recording_draws_all_vertices_once_between_begin_and_end() {
    assert_eq!(
        record(2, 3, true).commands,
        vec![
            Command::BeginRenderPass { framebuffer: 2, clear_color: grey() },
            Command::BindPipelineGraphics,
            Command::BindDescriptorSets { first_set: 0 },
            Command::BindVertexBuffers { first_binding: 0 },
            Command::Draw { vertex_count: 3, instance_count: 1, first_vertex: 0, first_instance: 0 },
            Command::EndRenderPass,
        ]
    );
}

#[test]
fn a_recording_without_a_transform_binds_no_descriptor_set() {
    assert_eq!(
        record(0, 7, false).commands,
        vec![
            Command::BeginRenderPass { framebuffer: 0, clear_color: grey() },
            Command::BindPipelineGraphics,
            Command::BindVertexBuffers { first_binding: 0 },
            Command::Draw { vertex_count: 7, instance_count: 1, first_vertex: 0, first_instance: 0 },
            Command::EndRenderPass,
        ]
    );
}

#[test]
fn each_framebuffer_gets_its_command_sequence() {
    let images = get_images(&create_swapchain(&connection(), [640, 480]).unwrap(), 3);
    let framebuffers = get_framebuffers(&images, &pass(50));
    let vertices = get_triangle_vertex_buffer();
    let buffers = get_command_buffers(&framebuffers, &vertices, true);
    assert_eq!(buffers.len(), 3);
    for (i, buffer) in buffers.iter().enumerate() {
        assert_eq!(buffer.commands, record(i, 3, true).commands);
        assert_eq!(
            buffer.commands[0],
            Command::BeginRenderPass { framebuffer: i, clear_color: grey() }
        );
    }
    assert!(get_command_buffers(&vec![], &vertices, true).is_empty());
    let bare = get_command_buffers(&framebuffers, &vec![], false);
    assert_eq!(bare.len(), 3);
    assert_eq!(bare[1].commands, record(1, 0, false).commands);
}
