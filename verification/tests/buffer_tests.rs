use colour_uniform::buffer::{BufferError, BufferState, BufferUsage};
use colour_uniform::device::{
    select_memory_type, select_queue_family, DeviceState, GpuOp, Limits, MemoryProperties,
    MemoryType, QueueFamilyInfo,
};

fn test_device() -> DeviceState {
    let memory_types = vec![
        MemoryType {
            properties: MemoryProperties { cpu_visible: false, coherent: false, device_local: true },
        },
        MemoryType {
            properties: MemoryProperties { cpu_visible: true, coherent: true, device_local: false },
        },
    ];
    let limits = Limits { optimal_buffer_copy_pitch_alignment: 256 };
    DeviceState::new(memory_types, limits, 0b11, 0b11)
}

#[test]
fn select_memory_type_picks_first_match() {
    let device = test_device();
    let upload = select_memory_type(
        &device.memory_types,
        0b11,
        MemoryProperties { cpu_visible: true, coherent: true, device_local: false },
    );
    assert_eq!(upload, Some(1));
    let device_local = select_memory_type(
        &device.memory_types,
        0b11,
        MemoryProperties { cpu_visible: false, coherent: false, device_local: true },
    );
    assert_eq!(device_local, Some(0));
}

#[test]
fn select_memory_type_respects_type_mask() {
    let device = test_device();
    // Only bit 0 set: the host-visible type at index 1 is not allowed.
    let upload = select_memory_type(
        &device.memory_types,
        0b01,
        MemoryProperties { cpu_visible: true, coherent: true, device_local: false },
    );
    assert_eq!(upload, None);
}

#[test]
fn buffer_new_copies_data() {
    let mut device = test_device();
    let data = [1u8, 2, 3, 4, 5];
    let buffer = BufferState::new(&mut device, &data, BufferUsage::Vertex);
    assert_eq!(buffer.size, 5);
    assert_eq!(buffer.contents, vec![1, 2, 3, 4, 5]);
    assert_eq!(buffer.memory_type, 1);
    assert!(buffer.alive);
    assert_eq!(
        device.log,
        vec![
            GpuOp::CreateBuffer(buffer.buffer_id),
            GpuOp::AllocateMemory(buffer.memory_id),
        ]
    );
}

#[test]
fn update_within_bounds_splices_bytes() {
    let mut device = test_device();
    let data = [0u8, 0, 0, 0, 0, 0];
    let mut buffer = BufferState::new(&mut device, &data, BufferUsage::Uniform);
    let r = buffer.update_checked(2, &[9u8, 8]);
    assert!(r.is_ok());
    assert_eq!(buffer.contents, vec![0, 0, 9, 8, 0, 0]);
}

#[test]
fn update_past_allocated_size_is_rejected() {
    let mut device = test_device();
    let data = [7u8, 7, 7, 7];
    let mut buffer = BufferState::new(&mut device, &data, BufferUsage::Uniform);
    // offset + data length exceeds the allocated size by one byte.
    let r = buffer.update_checked(3, &[1u8, 2]);
    assert_eq!(r, Err(BufferError::OutOfBounds));
    // Nothing was written, not even a truncated prefix.
    assert_eq!(buffer.contents, vec![7, 7, 7, 7]);
    // The exact boundary is still accepted.
    let r2 = buffer.update_checked(2, &[1u8, 2]);
    assert!(r2.is_ok());
    assert_eq!(buffer.contents, vec![7, 7, 1, 2]);
}

#[test]
fn update_with_huge_offset_is_rejected() {
    let mut device = test_device();
    let data = [0u8; 8];
    let mut buffer = BufferState::new(&mut device, &data, BufferUsage::Uniform);
    let r = buffer.update_checked(u64::MAX, &[1u8]);
    assert_eq!(r, Err(BufferError::OutOfBounds));
    assert_eq!(buffer.contents, vec![0u8; 8]);
}

#[test]
fn texture_staging_is_row_pitch_aligned() {
    let mut device = test_device();
    // Width 3: a tightly packed row is 12 bytes, padded out to 256.
    let pixels: Vec<u8> = (0u8..24).collect();
    let (staged, dims, row_pitch, stride) =
        BufferState::new_texture(&mut device, &pixels, 3, 2, BufferUsage::TransferSrc);
    assert_eq!(row_pitch, 256);
    assert_eq!(stride, 4);
    assert_eq!(dims.width, 3);
    assert_eq!(dims.height, 2);
    assert_eq!(staged.size, 512);
    assert_eq!(&staged.contents[0..12], &pixels[0..12]);
    assert_eq!(&staged.contents[256..268], &pixels[12..24]);
    // The padding between rows is zeroed.
    assert!(staged.contents[12..256].iter().all(|&b| b == 0));
    assert!(staged.contents[268..512].iter().all(|&b| b == 0));
}

#[test]
fn row_pitch_of_aligned_width_is_unchanged() {
    let mut device = test_device();
    // Width 1024 at alignment 256: 4096 bytes per row is already aligned.
    let pixels = vec![5u8; 1024 * 4];
    let (staged, _dims, row_pitch, _stride) =
        BufferState::new_texture(&mut device, &pixels, 1024, 1, BufferUsage::TransferSrc);
    assert_eq!(row_pitch, 4096);
    assert_eq!(staged.size, 4096);
    assert_eq!(staged.contents, pixels);
}

#[test]
fn buffer_destroy_releases_buffer_before_memory() {
    let mut device = test_device();
    let data = [1u8, 2];
    let mut buffer = BufferState::new(&mut device, &data, BufferUsage::Vertex);
    let buffer_id = buffer.buffer_id;
    let memory_id = buffer.memory_id;
    let len_before = device.log.len();
    buffer.destroy(&mut device);
    assert!(!buffer.alive);
    assert_eq!(
        &device.log[len_before..],
        &[GpuOp::DestroyBuffer(buffer_id), GpuOp::FreeMemory(memory_id)]
    );
    // A second destroy is a no-op.
    buffer.destroy(&mut device);
    assert_eq!(device.log.len(), len_before + 2);
}

#[test]
fn queue_family_needs_graphics_and_present() {
    let families = vec![
        QueueFamilyInfo { supports_graphics: true, supports_surface: false },
        QueueFamilyInfo { supports_graphics: false, supports_surface: true },
        QueueFamilyInfo { supports_graphics: true, supports_surface: true },
    ];
    assert_eq!(select_queue_family(&families), Some(2));
    let none = vec![QueueFamilyInfo { supports_graphics: true, supports_surface: false }];
    assert_eq!(select_queue_family(&none), None);
}
