use colour_uniform::device::{GpuOp, Limits, MemoryProperties, MemoryType};
use colour_uniform::item::ImageLayout;
use colour_uniform::render::{
    rgba_bytes, AttachmentLoadOp, AttachmentStoreOp, Color, Key, RenderCommand, RendererState,
    Rgba,
};
use colour_uniform::swapchain::{Extent2d, Format, SurfaceCapabilities};

/// A 2x2 RGBA PNG: red and green on the top row, blue and
/// half-transparent white on the bottom row.
fn tiny_png() -> Vec<u8> {
    vec![
        137, 80, 78, 71, 13, 10, 26, 10, 0, 0, 0, 13, 73, 72, 68, 82, 0, 0, 0, 2, 0, 0, 0, 2, 8,
        6, 0, 0, 0, 114, 182, 13, 36, 0, 0, 0, 19, 73, 68, 65, 84, 120, 156, 99, 248, 207, 192,
        240, 31, 12, 129, 52, 8, 52, 0, 0, 73, 73, 9, 120, 40, 160, 219, 119, 0, 0, 0, 0, 73, 69,
        78, 68, 174, 66, 96, 130,
    ]
}

fn adapter_memory_types() -> Vec<MemoryType> {
    vec![
        MemoryType {
            properties: MemoryProperties { cpu_visible: false, coherent: false, device_local: true },
        },
        MemoryType {
            properties: MemoryProperties { cpu_visible: true, coherent: true, device_local: false },
        },
    ]
}

fn surface_caps() -> SurfaceCapabilities {
    SurfaceCapabilities {
        min_image_count: 2,
        max_image_count: 8,
        current_extent: None,
        min_extent: Extent2d { width: 64, height: 64 },
        max_extent: Extent2d { width: 2048, height: 2048 },
    }
}

fn make_renderer() -> RendererState {
    let limits = Limits { optimal_buffer_copy_pitch_alignment: 256 };
    let formats = Some(vec![Format::Bgra8Unorm, Format::Bgra8Srgb]);
    let png = tiny_png();
    let vertex_data = [0u8; 96];
    RendererState::new(
        adapter_memory_types(),
        limits,
        0b11,
        0b11,
        surface_caps(),
        &formats,
        &png,
        &vertex_data,
    )
    .expect("renderer construction")
}

#[test]
fn renderer_rejects_bytes_that_are_no_png() {
    let limits = Limits { optimal_buffer_copy_pitch_alignment: 256 };
    let r = RendererState::new(
        adapter_memory_types(),
        limits,
        0b11,
        0b11,
        surface_caps(),
        &None,
        &vec![1, 2, 3, 4],
        &[0u8; 16],
    );
    assert!(r.is_none());
}

#[test]
fn renderer_decodes_and_stages_the_embedded_image() {
    let r = make_renderer();
    assert_eq!(r.image.dims.width, 2);
    assert_eq!(r.image.dims.height, 2);
    // Two texels of four bytes round up to one 256-byte row.
    assert_eq!(r.image.row_pitch, 256);
    assert_eq!(r.image.buffer.contents.len(), 512);
    // Top row: a red texel, then a green texel.
    assert_eq!(&r.image.buffer.contents[0..8], &[255, 0, 0, 255, 0, 255, 0, 255]);
    // Bottom row starts at the pitch: blue, then half-transparent white.
    assert_eq!(&r.image.buffer.contents[256..264], &[0, 0, 255, 255, 255, 255, 255, 128]);
}

#[test]
fn renderer_starts_with_white_tint_and_grey_background() {
    let r = make_renderer();
    assert_eq!(r.color, Rgba { r: 255, g: 255, b: 255, a: 255 });
    assert_eq!(r.bg_color, Rgba { r: 204, g: 204, b: 204, a: 255 });
    assert!(matches!(r.cur_color, Color::Red));
    assert_eq!(r.cur_value, 0);
    assert!(r.image.fence_waited);
    assert_eq!(r.swapchain.frame_queue_size, 3);
    assert_eq!(r.framebuffer.slots.len(), 3);
    assert_eq!(r.swapchain.format, Format::Bgra8Srgb);
    assert_eq!(r.uniform.buffer.as_ref().unwrap().contents, rgba_bytes(r.color));
}

#[test]
fn color_accumulates_digits_and_commits_on_enter() {
    let mut r = make_renderer();
    r.input(Key::Key2);
    r.input(Key::Key5);
    r.input(Key::Key5);
    assert_eq!(r.cur_value, 255);
    r.input(Key::Return);
    assert_eq!(r.color.r, 255);
    assert_eq!(r.color.r as f64 / 255.0, 1.0);
    assert_eq!(r.cur_value, 0);
    // The committed tint reached the uniform buffer.
    assert_eq!(r.uniform.buffer.as_ref().unwrap().contents, rgba_bytes(r.color));
    // Selecting a channel resets the accumulator before new digits.
    r.input(Key::Key7);
    assert_eq!(r.cur_value, 7);
    r.input(Key::R);
    assert_eq!(r.cur_value, 0);
    assert!(matches!(r.cur_color, Color::Red));
}

#[test]
fn committed_green_value_lands_in_green_channel() {
    let mut r = make_renderer();
    r.input(Key::G);
    r.input(Key::Key1);
    r.input(Key::Key2);
    r.input(Key::Key7);
    r.input(Key::Return);
    assert_eq!(r.color, Rgba { r: 255, g: 127, b: 255, a: 255 });
    assert_eq!(r.uniform.buffer.as_ref().unwrap().contents, rgba_bytes(r.color));
}

#[test]
fn background_alpha_edit_premultiplies_the_channels() {
    let mut r = make_renderer();
    // Background starts at (0.8, 0.8, 0.8, 1.0) in channel units of 1/255.
    assert_eq!(r.bg_color, Rgba { r: 204, g: 204, b: 204, a: 255 });
    r.input(Key::A);
    r.input(Key::Key1);
    r.input(Key::Key2);
    r.input(Key::Key8);
    assert_eq!(r.cur_value, 128);
    r.input(Key::C);
    // 204 * 128 / 255 == 102: each colour channel is scaled by the new
    // alpha, and 102/255 is exactly 0.4.
    assert_eq!(r.bg_color, Rgba { r: 102, g: 102, b: 102, a: 128 });
    assert_eq!(r.bg_color.r as f64 / 255.0, 0.4);
    assert!((r.bg_color.a as f64 / 255.0 - 0.50196).abs() < 1e-4);
    assert_eq!(r.cur_value, 0);
}

#[test]
fn background_colour_commit_stores_the_value() {
    let mut r = make_renderer();
    r.input(Key::B);
    r.input(Key::Key5);
    r.input(Key::Key1);
    r.input(Key::Key0);
    // Commit 510 (double intensity) to the background's blue channel:
    // the value lands as typed.
    r.input(Key::C);
    assert_eq!(r.bg_color, Rgba { r: 204, g: 204, b: 510, a: 255 });
}

#[test]
fn background_colour_commit_ignores_current_alpha() {
    let mut r = make_renderer();
    // Halve the background alpha first.
    r.input(Key::A);
    r.input(Key::Key1);
    r.input(Key::Key2);
    r.input(Key::Key8);
    r.input(Key::C);
    assert_eq!(r.bg_color.a, 128);
    // A colour-channel commit stores the value plainly; only the
    // alpha-channel commit premultiplies.
    r.input(Key::R);
    r.input(Key::Key1);
    r.input(Key::Key0);
    r.input(Key::Key0);
    r.input(Key::C);
    assert_eq!(r.bg_color.r, 100);
}

#[test]
fn render_pass_declares_the_cleared_presentable_attachment() {
    let r = make_renderer();
    let a = r.render_pass.attachment;
    assert_eq!(a.format, r.swapchain.format);
    assert_eq!(a.samples, 1);
    assert!(matches!(a.load_op, AttachmentLoadOp::Clear));
    assert!(matches!(a.store_op, AttachmentStoreOp::Store));
    assert!(matches!(a.stencil_load_op, AttachmentLoadOp::DontCare));
    assert!(matches!(a.stencil_store_op, AttachmentStoreOp::DontCare));
    assert!(matches!(a.initial_layout, ImageLayout::Undefined));
    assert!(matches!(a.final_layout, ImageLayout::Present));
    assert!(matches!(r.render_pass.subpass_color_layout, ImageLayout::ColorAttachmentOptimal));
    assert!(!r.render_pass.has_depth_stencil);
}

#[test]
fn construction_waits_for_the_upload_and_frees_the_staging_pool() {
    let r = make_renderer();
    let staging_pool = r.image.buffer.buffer_id - 1;
    let log = &r.device.log;
    // The transfer fence is waited on, and the transient staging pool
    // released, before the swapchain is configured.
    let wait = log.iter().position(|&o| o == GpuOp::WaitFence(r.image.fence_id)).unwrap();
    let pool_gone = log.iter().position(|&o| o == GpuOp::DestroyCommandPool(staging_pool)).unwrap();
    let chain = log
        .iter()
        .position(|&o| o == GpuOp::ConfigureSwapchain(r.render_pass.render_pass_id - 1))
        .unwrap();
    assert!(wait < pool_gone);
    assert!(pool_gone < chain);
    // The image's memory comes from the first device-local type.
    assert_eq!(r.image.memory_type, 0);
}

#[test]
fn steady_frame_records_the_canonical_commands() {
    let mut r = make_renderer();
    let caps = surface_caps();
    let formats = Some(vec![Format::Bgra8Unorm, Format::Bgra8Srgb]);
    let framebuffer_id = r.device.next_id;
    let uniform_set_id = r.uniform.desc.as_ref().unwrap().set_id;
    r.draw(caps, &formats, Some(0), true);
    assert_eq!(r.swapchain.frame_index, 1);
    assert!(!r.recreate_swapchain);
    let slot = &r.framebuffer.slots[0];
    assert_eq!(slot.command_buffers.len(), 1);
    let expected = vec![
        RenderCommand::SetViewport(r.viewport),
        RenderCommand::SetScissor(r.viewport),
        RenderCommand::BindPipeline(r.pipeline.pipeline_id),
        RenderCommand::BindVertexBuffer(r.vertex_buffer.buffer_id),
        RenderCommand::BindDescriptorSets {
            layout: r.pipeline.pipeline_layout_id,
            image_set: r.image.desc.set_id,
            uniform_set: uniform_set_id,
        },
        RenderCommand::BeginRenderPass {
            render_pass: r.render_pass.render_pass_id,
            framebuffer: framebuffer_id,
            clear: r.bg_color,
        },
        RenderCommand::Draw { vertex_start: 0, vertex_end: 6, instance_start: 0, instance_end: 1 },
        RenderCommand::EndRenderPass,
        RenderCommand::Finish,
    ];
    assert_eq!(slot.command_buffers[0].cmds, expected);
    // The frame's driver calls, in order.
    let pool_id = slot.pool_id;
    let semaphore_id = slot.semaphore_id;
    let tail = &r.device.log[r.device.log.len() - 5..];
    assert_eq!(
        tail,
        &[
            GpuOp::CreateFramebuffer(framebuffer_id),
            GpuOp::ResetCommandPool(pool_id),
            GpuOp::SubmitDraw(semaphore_id),
            GpuOp::Present(semaphore_id),
            GpuOp::DestroyFramebuffer(framebuffer_id),
        ]
    );
}

#[test]
fn command_buffers_are_reused_across_frames() {
    let mut r = make_renderer();
    let caps = surface_caps();
    let formats = Some(vec![Format::Bgra8Srgb]);
    for _ in 0..6 {
        r.draw(caps, &formats, Some(0), true);
    }
    // Two frames hit each of the three slots; the second reused the
    // first's command buffer instead of allocating another.
    for slot in &r.framebuffer.slots {
        assert_eq!(slot.command_buffers.len(), 1);
    }
}

#[test]
fn present_failure_flags_the_swapchain_invalid() {
    let mut r = make_renderer();
    let caps = surface_caps();
    let formats = Some(vec![Format::Bgra8Srgb]);
    r.draw(caps, &formats, Some(0), false);
    assert!(r.recreate_swapchain);
    // The frame itself was still submitted and presented.
    assert_eq!(r.swapchain.frame_index, 1);
}

#[test]
fn acquire_failure_skips_the_frame_and_flags_recovery() {
    let mut r = make_renderer();
    let caps = surface_caps();
    let formats = Some(vec![Format::Bgra8Srgb]);
    let log_len = r.device.log.len();
    let frame_index = r.swapchain.frame_index;
    r.draw(caps, &formats, None, true);
    assert!(r.recreate_swapchain);
    // No frame was recorded, submitted or presented.
    assert_eq!(r.device.log.len(), log_len);
    assert_eq!(r.swapchain.frame_index, frame_index);
}

#[test]
fn swapchain_recovery_rebuilds_everything_exactly_once() {
    let mut r = make_renderer();
    let caps = surface_caps();
    let formats = Some(vec![Format::Bgra8Srgb]);
    let old_render_pass = r.render_pass.render_pass_id;
    let old_pipeline = r.pipeline.pipeline_id;
    let old_pipeline_layout = r.pipeline.pipeline_layout_id;
    let old_pools: Vec<u64> = r.framebuffer.slots.iter().map(|s| s.pool_id).collect();
    let old_semaphores: Vec<u64> = r.framebuffer.slots.iter().map(|s| s.semaphore_id).collect();

    // A failed acquire flags the swapchain invalid; the next draw must
    // recover before drawing.
    r.draw(caps, &formats, None, true);
    assert!(r.recreate_swapchain);
    let log_len = r.device.log.len();
    r.draw(caps, &formats, Some(0), true);
    assert!(!r.recreate_swapchain);

    // Everything was rebuilt fresh, against the new render pass.
    assert_ne!(r.render_pass.render_pass_id, old_render_pass);
    assert_ne!(r.pipeline.pipeline_id, old_pipeline);
    assert_eq!(r.pipeline.render_pass_id, r.render_pass.render_pass_id);
    assert_eq!(r.framebuffer.slots.len(), r.swapchain.frame_queue_size as usize);
    for slot in &r.framebuffer.slots {
        assert!(!old_pools.contains(&slot.pool_id));
    }

    // Nothing of the previous generation leaked: the log shows each
    // old object destroyed, exactly once overall.
    let recovery = &r.device.log[log_len..];
    let count = |op: GpuOp| recovery.iter().filter(|&&o| o == op).count();
    assert_eq!(count(GpuOp::WaitIdle), 1);
    assert_eq!(count(GpuOp::DestroyRenderPass(old_render_pass)), 1);
    assert_eq!(count(GpuOp::DestroyPipeline(old_pipeline)), 1);
    assert_eq!(count(GpuOp::DestroyPipelineLayout(old_pipeline_layout)), 1);
    for &p in &old_pools {
        assert_eq!(count(GpuOp::DestroyCommandPool(p)), 1);
    }
    for &s in &old_semaphores {
        assert_eq!(count(GpuOp::DestroySemaphore(s)), 1);
    }
    // And the recovered frame drew normally afterwards.
    assert_eq!(r.swapchain.frame_index, 1);

    // The next draw is a plain frame: no second recreation.
    let log_len2 = r.device.log.len();
    r.draw(caps, &formats, Some(0), true);
    let steady = &r.device.log[log_len2..];
    assert_eq!(steady.iter().filter(|&&o| o == GpuOp::WaitIdle).count(), 0);
    assert_eq!(steady.len(), 5);
}

#[test]
fn renderer_teardown_drains_the_device_first() {
    let mut r = make_renderer();
    let fence_id = r.image.fence_id;
    let log_len = r.device.log.len();
    r.destroy();
    let tail = &r.device.log[log_len..];
    assert_eq!(tail[0], GpuOp::WaitIdle);
    // The image teardown waits on the transfer fence before any of its
    // releases.
    let wait_pos = tail.iter().position(|&o| o == GpuOp::WaitFence(fence_id)).unwrap();
    let fence_pos = tail.iter().position(|&o| o == GpuOp::DestroyFence(fence_id)).unwrap();
    assert!(wait_pos < fence_pos);
    assert!(!r.image.alive);
    assert!(!r.pipeline.alive);
    assert!(!r.framebuffer.alive);
}
