use colour_uniform::device::{DeviceState, Limits, MemoryType};
use colour_uniform::swapchain::{
    Extent2d, Format, SurfaceCapabilities, SwapchainState, Viewport, select_format,
};

fn bare_device() -> DeviceState {
    let memory_types: Vec<MemoryType> = Vec::new();
    DeviceState::new(memory_types, Limits { optimal_buffer_copy_pitch_alignment: 1 }, 0, 0)
}

fn caps_without_current_extent() -> SurfaceCapabilities {
    SurfaceCapabilities {
        min_image_count: 2,
        max_image_count: 8,
        current_extent: None,
        min_extent: Extent2d { width: 64, height: 64 },
        max_extent: Extent2d { width: 2048, height: 2048 },
    }
}

#[test]
fn format_defaults_to_srgb_without_a_list() {
    assert_eq!(select_format(&None), Format::Rgba8Srgb);
}

#[test]
fn format_prefers_first_srgb_entry() {
    let formats = Some(vec![Format::Rgba8Unorm, Format::Bgra8Srgb, Format::Rgba8Srgb]);
    assert_eq!(select_format(&formats), Format::Bgra8Srgb);
}

#[test]
fn format_falls_back_to_first_entry() {
    let formats = Some(vec![Format::Bgra8Unorm, Format::Rgba8Unorm]);
    assert_eq!(select_format(&formats), Format::Bgra8Unorm);
}

#[test]
fn swapchain_clamps_default_resolution_and_image_count() {
    let mut device = bare_device();
    let sc = SwapchainState::new(&mut device, caps_without_current_extent(), &None);
    assert_eq!(sc.extent, Extent2d { width: 1024, height: 768 });
    assert_eq!(sc.frame_queue_size, 3);
    assert_eq!(sc.frame_index, 0);
    assert_eq!(sc.format, Format::Rgba8Srgb);
}

#[test]
fn swapchain_uses_current_extent_and_clamps_count_down() {
    let mut device = bare_device();
    let caps = SurfaceCapabilities {
        min_image_count: 1,
        max_image_count: 2,
        current_extent: Some(Extent2d { width: 640, height: 480 }),
        min_extent: Extent2d { width: 64, height: 64 },
        max_extent: Extent2d { width: 2048, height: 2048 },
    };
    let sc = SwapchainState::new(&mut device, caps, &None);
    assert_eq!(sc.extent, Extent2d { width: 640, height: 480 });
    // The default of three images is clamped to the supported maximum.
    assert_eq!(sc.frame_queue_size, 2);
}

#[test]
fn swapchain_clamps_small_surface_up() {
    let mut device = bare_device();
    let caps = SurfaceCapabilities {
        min_image_count: 4,
        max_image_count: 8,
        current_extent: None,
        min_extent: Extent2d { width: 32, height: 32 },
        max_extent: Extent2d { width: 800, height: 600 },
    };
    let sc = SwapchainState::new(&mut device, caps, &None);
    assert_eq!(sc.extent, Extent2d { width: 800, height: 600 });
    // The default of three images is clamped to the supported minimum.
    assert_eq!(sc.frame_queue_size, 4);
}

#[test]
fn frame_slots_rotate_round_robin() {
    let mut device = bare_device();
    let mut sc = SwapchainState::new(&mut device, caps_without_current_extent(), &None);
    assert_eq!(sc.frame_queue_size, 3);
    let mut slots = Vec::new();
    for _ in 0..7 {
        slots.push(sc.next_frame_slot());
    }
    assert_eq!(slots, vec![0, 1, 2, 0, 1, 2, 0]);
    assert_eq!(sc.frame_index, 7);
    // Restarting the counter at zero replays the same slot sequence.
    sc.frame_index = 0;
    let mut replay = Vec::new();
    for _ in 0..3 {
        replay.push(sc.next_frame_slot());
    }
    assert_eq!(replay, vec![0, 1, 2]);
}

#[test]
fn viewport_covers_the_extent() {
    let mut device = bare_device();
    let sc = SwapchainState::new(&mut device, caps_without_current_extent(), &None);
    let vp = sc.make_viewport();
    assert_eq!(vp, Viewport { x: 0, y: 0, w: 1024, h: 768 });
}
