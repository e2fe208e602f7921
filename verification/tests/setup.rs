use vulkan_engine::renderer::command_pools::{CommandBufferAllocateInfo, CommandPoolInfo, CommandPools};
use vulkan_engine::renderer::debug::RendererDebug;
use vulkan_engine::renderer::device::{
    DeviceError, DeviceQueueInfo, QueueFamily, QueueFamilyProperties, RendererDevice,
};
use vulkan_engine::renderer::lifecycle::{DestroyStep, Resource};
use vulkan_engine::renderer::mesh::{
    AttributeFormat, PushConstantDescription, Vertex, VertexInputAttribute, VertexInputBinding,
    VertexInputRate,
};
use vulkan_engine::renderer::pipeline::{
    BlendFactor, BlendOp, CullMode, FrontFace, PolygonMode, PrimitiveTopology, PushConstantRange,
    Rect2D, RendererPipeline, Viewport,
};
use vulkan_engine::renderer::shader::{entry_point, Shader, ShaderStage, ShaderStageInfo};
use vulkan_engine::renderer::swapchain::{
    image_count, CompositeAlpha, Extent2D, FrameSyncInfo, FramebufferInfo, ImageUsage, PresentMode,
    RendererSwapchain, SharingMode, SurfaceCapabilities, SurfaceFormat, SwapchainError,
};
use vulkan_engine::renderer::window::RendererWindow;

fn capabilities(min: u32, max: u32) -> SurfaceCapabilities {
    SurfaceCapabilities {
        min_image_count: min,
        max_image_count: max,
        current_extent: Extent2D { width: 800, height: 600 },
        current_transform: 1,
    }
}

fn family(flags: u32, count: u32) -> QueueFamilyProperties {
    QueueFamilyProperties { queue_flags: flags, queue_count: count }
}

fn swapchain(slots: u64) -> RendererSwapchain {
    let available: Vec<u64> = (0..slots).map(|i| 100 + i).collect();
    let finished: Vec<u64> = (0..slots).map(|i| 200 + i).collect();
    let fences: Vec<u64> = (0..slots).map(|i| 300 + i).collect();
    RendererSwapchain::new(
        7,
        vec![11, 12, 13],
        Extent2D { width: 800, height: 600 },
        available,
        finished,
        fences,
    )
    .unwrap()
}

#[test]
fn image_count_is_three_when_the_surface_needs_fewer() {
    assert_eq!(image_count(&capabilities(2, 8)), 3);
    assert_eq!(image_count(&capabilities(0, 3)), 3);
}

#[test]
fn image_count_is_the_minimum_when_the_surface_needs_more() {
    assert_eq!(image_count(&capabilities(4, 8)), 4);
    assert_eq!(image_count(&capabilities(5, 5)), 5);
}

#[test]
fn image_count_is_clamped_to_the_maximum() {
    assert_eq!(image_count(&capabilities(1, 2)), 2);
    assert_eq!(image_count(&capabilities(2, 0)), 0);
}

#[test]
fn swapchain_info_has_the_fixed_choices() {
    let format = SurfaceFormat { format: 50, color_space: 0 };
    let info = RendererSwapchain::create_swapchain(9, &capabilities(2, 8), &format, 4);
    assert_eq!(info.surface, 9);
    assert_eq!(info.min_image_count, 3);
    assert_eq!(info.image_format, 50);
    assert_eq!(info.image_color_space, 0);
    assert_eq!(info.image_extent, Extent2D { width: 800, height: 600 });
    assert_eq!(info.image_array_layers, 1);
    assert_eq!(info.image_usage, ImageUsage::ColorAttachment);
    assert_eq!(info.image_sharing_mode, SharingMode::Exclusive);
    assert_eq!(info.queue_family_index, 4);
    assert_eq!(info.pre_transform, 1);
    assert_eq!(info.composite_alpha, CompositeAlpha::Opaque);
    assert_eq!(info.present_mode, PresentMode::Fifo);
}

#[test]
fn image_views_are_two_dimensional_colour_views() {
    let infos = RendererSwapchain::create_image_views(&vec![21, 22]);
    assert_eq!(infos.len(), 2);
    assert_eq!(infos[0].image, 21);
    assert_eq!(infos[1].image, 22);
    for info in &infos {
        assert_eq!(info.dimensions, 2);
        assert_eq!(info.format, 44);
        assert!(info.color_aspect);
        assert_eq!((info.base_mip_level, info.level_count), (0, 1));
        assert_eq!((info.base_array_layer, info.layer_count), (0, 1));
    }
    assert!(RendererSwapchain::create_image_views(&vec![]).is_empty());
}

#[test]
fn frame_sync_slots_are_as_many_as_images() {
    let info = RendererSwapchain::frame_sync_info(3);
    assert_eq!(info, FrameSyncInfo { slots: 3, fences_signaled: true });
    assert_eq!(RendererSwapchain::frame_sync_info(0).slots, 0);
}

#[test]
fn swapchain_needs_complete_frame_sync_slots() {
    let extent = Extent2D { width: 1, height: 1 };
    let none = RendererSwapchain::new(1, vec![], extent, vec![], vec![], vec![]);
    assert_eq!(none.err(), Some(SwapchainError::NoFrameSync));
    let none = RendererSwapchain::new(1, vec![], extent, vec![1], vec![2], vec![]);
    assert_eq!(none.err(), Some(SwapchainError::NoFrameSync));
    let odd = RendererSwapchain::new(1, vec![], extent, vec![1], vec![2, 3], vec![4, 5]);
    assert_eq!(odd.err(), Some(SwapchainError::FrameSyncMismatch));
    let odd = RendererSwapchain::new(1, vec![], extent, vec![1, 6], vec![2], vec![4, 5]);
    assert_eq!(odd.err(), Some(SwapchainError::FrameSyncMismatch));
    let made = RendererSwapchain::new(1, vec![9], extent, vec![1, 6], vec![2, 3], vec![4, 5]).unwrap();
    assert!(made.is_well_formed());
    assert_eq!(made.current_image, 0);
    assert!(made.framebuffers.is_empty());
    assert_eq!(made.image_views, vec![9]);
    assert_eq!(made.may_begin_drawing, vec![4, 5]);
}

#[test]
fn framebuffers_come_one_for_each_image_view() {
    let mut chain = swapchain(3);
    let infos = chain.framebuffer_infos(77);
    assert_eq!(
        infos,
        vec![
            FramebufferInfo { render_pass: 77, image_view: 11, width: 800, height: 600, layers: 1 },
            FramebufferInfo { render_pass: 77, image_view: 12, width: 800, height: 600, layers: 1 },
            FramebufferInfo { render_pass: 77, image_view: 13, width: 800, height: 600, layers: 1 },
        ]
    );
    assert_eq!(chain.create_framebuffers(vec![1, 2]), Err(SwapchainError::FramebufferCount));
    assert!(chain.framebuffers.is_empty());
    assert_eq!(chain.create_framebuffers(vec![31, 32, 33]), Ok(()));
    assert_eq!(chain.framebuffers, vec![31, 32, 33]);
    assert!(chain.is_well_formed());
}

#[test]
fn pacer_wraps_round_the_slots() {
    let mut chain = swapchain(3);
    let mut seen = vec![];
    for tick in 1..=10usize {
        chain.bump_current_image();
        seen.push(chain.current_image);
        assert_eq!(chain.current_image, tick % 3);
    }
    assert_eq!(seen, vec![1, 2, 0, 1, 2, 0, 1, 2, 0, 1]);
    let mut single = swapchain(1);
    single.bump_current_image();
    assert_eq!(single.current_image, 0);
}

#[test]
fn pacer_changes_nothing_but_the_slot() {
    let mut chain = swapchain(2);
    chain.create_framebuffers(vec![31, 32, 33]).unwrap();
    chain.bump_current_image();
    assert_eq!(chain.swapchain, 7);
    assert_eq!(chain.image_views, vec![11, 12, 13]);
    assert_eq!(chain.framebuffers, vec![31, 32, 33]);
    assert_eq!(chain.image_available, vec![100, 101]);
    assert_eq!(chain.rendering_finished, vec![200, 201]);
    assert_eq!(chain.may_begin_drawing, vec![300, 301]);
}

#[test]
fn swapchain_cleanup_goes_from_framebuffers_to_the_chain() {
    let mut chain = swapchain(2);
    chain.create_framebuffers(vec![31, 32, 33]).unwrap();
    assert_eq!(
        chain.cleanup(),
        vec![
            DestroyStep::Destroy(Resource::Fence, 300),
            DestroyStep::Destroy(Resource::Fence, 301),
            DestroyStep::Destroy(Resource::Semaphore, 100),
            DestroyStep::Destroy(Resource::Semaphore, 101),
            DestroyStep::Destroy(Resource::Semaphore, 200),
            DestroyStep::Destroy(Resource::Semaphore, 201),
            DestroyStep::Destroy(Resource::Framebuffer, 31),
            DestroyStep::Destroy(Resource::Framebuffer, 32),
            DestroyStep::Destroy(Resource::Framebuffer, 33),
            DestroyStep::Destroy(Resource::ImageView, 11),
            DestroyStep::Destroy(Resource::ImageView, 12),
            DestroyStep::Destroy(Resource::ImageView, 13),
            DestroyStep::Destroy(Resource::Swapchain, 7),
        ]
    );
}

#[test]
fn first_discrete_gpu_is_picked() {
    assert_eq!(RendererDevice::pick_physical_device(&vec![1, 2, 2]), Ok(1));
    assert_eq!(RendererDevice::pick_physical_device(&vec![2]), Ok(0));
    assert_eq!(RendererDevice::pick_physical_device(&vec![0, 1, 3, 4, 2]), Ok(4));
}

#[test]
fn no_discrete_gpu_is_an_error() {
    assert_eq!(RendererDevice::pick_physical_device(&vec![]), Err(DeviceError::NoDiscreteGpu));
    assert_eq!(
        RendererDevice::pick_physical_device(&vec![0, 1, 3, 4]),
        Err(DeviceError::NoDiscreteGpu)
    );
}

#[test]
fn first_family_that_can_draw_is_picked() {
    let picked = RendererDevice::pick_queue_families(&vec![family(6, 4), family(3, 0), family(7, 2), family(1, 1)])
        .unwrap();
    assert_eq!(picked.len(), 1);
    assert_eq!(picked[0].index, 2);
    assert_eq!(picked[0].flags, 1);
    assert!(picked[0].queues.is_empty());
    let picked = RendererDevice::pick_queue_families(&vec![family(1, 1)]).unwrap();
    assert_eq!(picked[0].index, 0);
}

#[test]
fn no_family_that_can_draw_is_an_error() {
    let none = RendererDevice::pick_queue_families(&vec![family(6, 4), family(1, 0), family(0xfffffffe, 9)]);
    assert_eq!(none.err(), Some(DeviceError::NoGraphicsQueueFamily));
    assert_eq!(
        RendererDevice::pick_queue_families(&vec![]).err(),
        Some(DeviceError::NoGraphicsQueueFamily)
    );
}

#[test]
fn device_is_created_with_the_swapchain_extension() {
    assert_eq!(RendererDevice::used_extensions(), vec!["VK_KHR_swapchain".to_string()]);
}

#[test]
fn one_queue_is_asked_of_each_family() {
    let families = vec![
        QueueFamily { index: 2, flags: 1, queues: vec![] },
        QueueFamily { index: 5, flags: 4, queues: vec![] },
    ];
    assert_eq!(
        RendererDevice::queue_infos(&families),
        vec![
            DeviceQueueInfo { queue_family_index: 2, queue_count: 1, priority: 1.0f32.to_bits() },
            DeviceQueueInfo { queue_family_index: 5, queue_count: 1, priority: 1.0f32.to_bits() },
        ]
    );
}

#[test]
fn device_takes_one_queue_for_each_family() {
    let families = vec![
        QueueFamily { index: 2, flags: 4, queues: vec![] },
        QueueFamily { index: 5, flags: 1, queues: vec![40] },
        QueueFamily { index: 6, flags: 1, queues: vec![] },
    ];
    let device = RendererDevice::new(1, 2, families, vec![41, 42, 43]).unwrap();
    assert_eq!(device.physical_device, 1);
    assert_eq!(device.logical_device, 2);
    assert_eq!(device.queue_families[0].queues, vec![41]);
    assert_eq!(device.queue_families[1].queues, vec![40, 42]);
    assert_eq!(device.queue_families[2].queues, vec![43]);
    let found = device.queue_family(1).unwrap();
    assert_eq!(found.index, 5);
    assert_eq!(device.queue_family(4).unwrap().index, 2);
    assert!(device.queue_family(5).is_none());
    assert_eq!(device.graphics_queue(), Ok(40));
    assert_eq!(device.cleanup(), DestroyStep::Destroy(Resource::Device, 2));
    let pool = CommandPools::graphics_pool_info(&device);
    assert_eq!(pool, Ok(CommandPoolInfo { queue_family_index: 5, reset_command_buffer: true }));
}

#[test]
fn device_without_its_queues_is_refused() {
    let families = vec![QueueFamily { index: 2, flags: 1, queues: vec![] }];
    assert_eq!(RendererDevice::new(1, 2, families, vec![]).err(), Some(DeviceError::QueueCount));
    let device = RendererDevice::new(1, 2, vec![], vec![]).unwrap();
    assert_eq!(device.graphics_queue(), Err(DeviceError::NoGraphicsQueueFamily));
    assert_eq!(CommandPools::graphics_pool_info(&device), Err(DeviceError::NoGraphicsQueueFamily));
    let transfer_only = RendererDevice::new(
        1,
        2,
        vec![QueueFamily { index: 0, flags: 4, queues: vec![] }],
        vec![9],
    )
    .unwrap();
    assert_eq!(transfer_only.graphics_queue(), Err(DeviceError::NoGraphicsQueueFamily));
}

#[test]
fn command_pool_and_its_buffers() {
    let pools = CommandPools::new(55);
    assert_eq!(pools.graphics, 55);
    assert_eq!(
        CommandPools::create_command_buffers(55, 3),
        CommandBufferAllocateInfo { command_pool: 55, command_buffer_count: 3 }
    );
    assert_eq!(pools.cleanup(), DestroyStep::Destroy(Resource::CommandPool, 55));
}

#[test]
fn messenger_passes_on_everything() {
    let info = RendererDebug::messenger_info();
    assert_eq!(info.message_severity, 0x1111);
    assert_eq!(info.message_type, 0x7);
    let debug = RendererDebug::new(8);
    assert_eq!(debug.cleanup(), DestroyStep::Destroy(Resource::DebugMessenger, 8));
}

#[test]
fn window_offers_its_first_format() {
    let first = SurfaceFormat { format: 44, color_space: 0 };
    let second = SurfaceFormat { format: 50, color_space: 0 };
    assert_eq!(RendererWindow::first_format(&vec![first, second]), Some(first));
    assert_eq!(RendererWindow::first_format(&vec![]), None);
    assert_eq!(RendererWindow::new(3).cleanup(), DestroyStep::Destroy(Resource::Surface, 3));
}

#[test]
fn shaders_know_their_stage() {
    assert_eq!(Shader::from_code_vert(5), Shader { shader_module: 5, stage: ShaderStage::Vertex });
    assert_eq!(Shader::from_code_frag(6), Shader { shader_module: 6, stage: ShaderStage::Fragment });
    assert_eq!(
        Shader::from_code(7, ShaderStage::Compute),
        Shader { shader_module: 7, stage: ShaderStage::Compute }
    );
    let shader = Shader::from_code_frag(6);
    assert_eq!(shader.shader_stage(), ShaderStageInfo { stage: ShaderStage::Fragment, module: 6 });
    assert_eq!(shader.cleanup(), DestroyStep::Destroy(Resource::ShaderModule, 6));
    assert_eq!(entry_point(), "main");
}

#[test]
fn vertex_layout_is_three_vectors_twelve_bytes_apart() {
    let description = Vertex::input_description();
    assert_eq!(
        description.bindings,
        vec![VertexInputBinding { binding: 0, stride: 36, input_rate: VertexInputRate::Vertex }]
    );
    assert_eq!(
        description.attributes,
        vec![
            VertexInputAttribute { binding: 0, location: 0, format: AttributeFormat::R32G32B32Sfloat, offset: 0 },
            VertexInputAttribute { binding: 0, location: 1, format: AttributeFormat::R32G32B32Sfloat, offset: 12 },
            VertexInputAttribute { binding: 0, location: 2, format: AttributeFormat::R32G32B32Sfloat, offset: 24 },
        ]
    );
    assert_eq!(description.flags, 0);
}

fn sample_builder() -> vulkan_engine::renderer::pipeline::PipelineBuilder {
    let description = Vertex::input_description();
    RendererPipeline::builder(1, Extent2D { width: 640, height: 480 }, 70)
        .shader(Shader::from_code_vert(5))
        .shader(Shader::from_code_frag(6))
        .bindings(&description.bindings)
        .attributes(&description.attributes)
        .push_constants(vec![PushConstantDescription { offset: 0, size: 64, stage_flags: 1 }])
}

#[test]
fn pipeline_has_the_fixed_state() {
    let build = sample_builder().build();
    let info = build.info;
    assert_eq!(info.fixed.topology, PrimitiveTopology::TriangleList);
    assert_eq!(info.fixed.front_face, FrontFace::CounterClockwise);
    assert_eq!(info.fixed.cull_mode, CullMode::Nothing);
    assert_eq!(info.fixed.polygon_mode, PolygonMode::Fill);
    assert_eq!(info.fixed.rasterization_samples, 1);
    assert_eq!(info.fixed.subpass, 0);
    let blend = info.fixed.blend;
    assert!(blend.blend_enable);
    assert_eq!(blend.src_color_blend_factor, BlendFactor::SrcAlpha);
    assert_eq!(blend.dst_color_blend_factor, BlendFactor::OneMinusSrcAlpha);
    assert_eq!(blend.color_blend_op, BlendOp::Add);
    assert_eq!(blend.src_alpha_blend_factor, BlendFactor::SrcAlpha);
    assert_eq!(blend.dst_alpha_blend_factor, BlendFactor::OneMinusSrcAlpha);
    assert_eq!(blend.alpha_blend_op, BlendOp::Add);
    assert!(blend.write_red && blend.write_green && blend.write_blue && blend.write_alpha);
    assert_eq!(
        info.viewport,
        Viewport { x: 0, y: 0, width: 640, height: 480, min_depth: 0, max_depth: 0 }
    );
    assert_eq!(info.fixed.line_width, 1.0f32.to_bits());
    assert_eq!(info.scissor, Rect2D { x: 0, y: 0, extent: Extent2D { width: 640, height: 480 } });
}

#[test]
fn pipeline_takes_what_the_builder_collected() {
    let build = sample_builder().build();
    let info = build.info;
    assert_eq!(info.render_pass, 70);
    assert_eq!(
        info.stages,
        vec![
            ShaderStageInfo { stage: ShaderStage::Vertex, module: 5 },
            ShaderStageInfo { stage: ShaderStage::Fragment, module: 6 },
        ]
    );
    assert_eq!(info.bindings, Vertex::input_description().bindings);
    assert_eq!(info.attributes, Vertex::input_description().attributes);
    assert_eq!(info.push_constant_ranges, vec![PushConstantRange { stage_flags: 1, offset: 0, size: 64 }]);
    assert_eq!(
        build.transient,
        vec![
            DestroyStep::Destroy(Resource::ShaderModule, 5),
            DestroyStep::Destroy(Resource::ShaderModule, 6),
        ]
    );
}

#[test]
fn building_twice_gives_the_same_pipeline() {
    let first = sample_builder().build();
    let second = sample_builder().build();
    assert_eq!(first.info.render_pass, second.info.render_pass);
    assert_eq!(first.info.stages, second.info.stages);
    assert_eq!(first.info.bindings, second.info.bindings);
    assert_eq!(first.info.attributes, second.info.attributes);
    assert_eq!(first.info.viewport, second.info.viewport);
    assert_eq!(first.info.scissor, second.info.scissor);
    assert_eq!(first.info.fixed, second.info.fixed);
    assert_eq!(first.info.push_constant_ranges, second.info.push_constant_ranges);
    assert_eq!(first.transient, second.transient);
    let builder = sample_builder();
    let again = builder.build();
    let and_again = builder.build();
    assert_eq!(again.info.stages, and_again.info.stages);
    assert_eq!(again.transient, and_again.transient);
}

#[test]
fn builder_setters_replace_and_adders_append() {
    let binding = VertexInputBinding { binding: 1, stride: 8, input_rate: VertexInputRate::Instance };
    let attribute =
        VertexInputAttribute { binding: 1, location: 3, format: AttributeFormat::R32G32Sfloat, offset: 0 };
    let builder = RendererPipeline::builder(1, Extent2D { width: 1, height: 1 }, 2)
        .device(9)
        .extent(Extent2D { width: 3, height: 4 })
        .render_pass(5)
        .binding(binding)
        .attribute(attribute)
        .push_constants(vec![PushConstantDescription { offset: 0, size: 4, stage_flags: 1 }])
        .push_constants(vec![PushConstantDescription { offset: 4, size: 8, stage_flags: 16 }]);
    assert_eq!(builder.device, 9);
    assert_eq!(builder.extent, Extent2D { width: 3, height: 4 });
    assert_eq!(builder.render_pass, 5);
    assert_eq!(builder.bindings, vec![binding]);
    assert_eq!(builder.attributes, vec![attribute]);
    assert!(builder.shaders.is_empty());
    let build = builder.build();
    assert!(build.info.stages.is_empty());
    assert!(build.transient.is_empty());
    assert_eq!(
        build.info.push_constant_ranges,
        vec![
            PushConstantRange { stage_flags: 1, offset: 0, size: 4 },
            PushConstantRange { stage_flags: 16, offset: 4, size: 8 },
        ]
    );
    assert_eq!(
        build.info.viewport,
        Viewport { x: 0, y: 0, width: 3, height: 4, min_depth: 0, max_depth: 0 }
    );
}

#[test]
fn pipeline_cleanup_destroys_the_pipeline_before_its_layout() {
    let pipeline = RendererPipeline::new(81, 82);
    assert_eq!(
        pipeline.cleanup(),
        vec![
            DestroyStep::Destroy(Resource::Pipeline, 81),
            DestroyStep::Destroy(Resource::PipelineLayout, 82),
        ]
    );
}
