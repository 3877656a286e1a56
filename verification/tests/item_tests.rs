use colour_uniform::buffer::{BufferUsage, FramebufferState};
use colour_uniform::desc::{
    create_descriptor_pool, DescSetLayout, DescSetLayoutBinding, DescSetWrite, Descriptor,
    DescriptorType, ShaderStage,
};
use colour_uniform::device::{DeviceState, GpuOp, Limits, MemoryProperties, MemoryType};
use colour_uniform::item::{ImageLayout, ImageState, TransferCommand, Uniform};
use colour_uniform::pipeline::{AttributeFormat, PipelineState, PolygonMode, PrimitiveTopology};
use colour_uniform::render::{rgba_bytes, Rgba};

fn test_device() -> DeviceState {
    let memory_types = vec![
        MemoryType {
            properties: MemoryProperties { cpu_visible: false, coherent: false, device_local: true },
        },
        MemoryType {
            properties: MemoryProperties { cpu_visible: true, coherent: true, device_local: false },
        },
    ];
    let limits = Limits { optimal_buffer_copy_pitch_alignment: 64 };
    DeviceState::new(memory_types, limits, 0b11, 0b11)
}

fn image_desc_layout(device: &mut DeviceState) -> DescSetLayout {
    let bindings = vec![
        DescSetLayoutBinding {
            binding: 0,
            ty: DescriptorType::SampledImage,
            count: 1,
            stage: ShaderStage::Fragment,
        },
        DescSetLayoutBinding {
            binding: 1,
            ty: DescriptorType::Sampler,
            count: 1,
            stage: ShaderStage::Fragment,
        },
    ];
    DescSetLayout::new(device, bindings)
}

fn make_image(device: &mut DeviceState) -> ImageState {
    let layout = image_desc_layout(device);
    let mut pool = create_descriptor_pool(device, 1);
    let desc = layout.create_desc_set(&mut pool, device);
    let staging_pool_id = 999;
    // A 2x1 image: one red texel, one green texel.
    let pixels = [255u8, 0, 0, 255, 0, 255, 0, 255];
    ImageState::new(desc, &pixels, 2, 1, device, staging_pool_id)
}

#[test]
fn image_upload_records_the_transfer_commands() {
    let mut device = test_device();
    let image = make_image(&mut device);
    assert_eq!(image.row_pitch, 64);
    let expected = vec![
        TransferCommand::BeginOneTime,
        TransferCommand::Barrier {
            image: image.image_id,
            from: ImageLayout::Undefined,
            to: ImageLayout::TransferDstOptimal,
        },
        TransferCommand::CopyBufferToImage {
            buffer: image.buffer.buffer_id,
            image: image.image_id,
            // The staging row length in texels: the pitch over the
            // 4-byte stride.
            buffer_width: 16,
            buffer_height: 1,
            width: 2,
            height: 1,
        },
        TransferCommand::Barrier {
            image: image.image_id,
            from: ImageLayout::TransferDstOptimal,
            to: ImageLayout::ShaderReadOnlyOptimal,
        },
        TransferCommand::Finish,
    ];
    assert_eq!(image.transfer_cmds, expected);
    // The upload was submitted with the image's fence, no semaphores.
    assert_eq!(*device.log.last().unwrap(), GpuOp::SubmitTransfer(image.fence_id));
}

#[test]
fn image_binds_view_and_sampler_into_its_set() {
    let mut device = test_device();
    let image = make_image(&mut device);
    assert!(image.desc.written);
    assert_eq!(
        image.desc.writes,
        vec![
            DescSetWrite {
                binding: 0,
                array_offset: 0,
                descriptor: Descriptor::Image(image.image_view_id),
            },
            DescSetWrite {
                binding: 1,
                array_offset: 0,
                descriptor: Descriptor::Sampler(image.sampler_id),
            },
        ]
    );
}

#[test]
fn image_destruction_waits_then_releases_in_reverse_order() {
    let mut device = test_device();
    let mut image = make_image(&mut device);
    // Destroy immediately, without waiting for the transfer first: the
    // teardown itself must block on the fence before any release.
    assert!(!image.fence_waited);
    let len_before = device.log.len();
    image.destroy(&mut device);
    assert!(image.fence_waited);
    assert!(!image.alive);
    let tail = &device.log[len_before..];
    assert_eq!(
        tail,
        &[
            GpuOp::WaitFence(image.fence_id),
            GpuOp::DestroyFence(image.fence_id),
            GpuOp::DestroySampler(image.sampler_id),
            GpuOp::DestroyImageView(image.image_view_id),
            GpuOp::DestroyImage(image.image_id),
            GpuOp::FreeMemory(image.memory_id),
            GpuOp::DestroyBuffer(image.buffer.buffer_id),
            GpuOp::FreeMemory(image.buffer.memory_id),
        ]
    );
    // A second destroy is a no-op.
    image.destroy(&mut device);
    assert_eq!(device.log.len(), len_before + 8);
}

#[test]
fn uniform_holds_its_bytes_and_binds_its_buffer() {
    let mut device = test_device();
    let layout = DescSetLayout::new(
        &mut device,
        vec![DescSetLayoutBinding {
            binding: 0,
            ty: DescriptorType::UniformBuffer,
            count: 1,
            stage: ShaderStage::Fragment,
        }],
    );
    let mut pool = create_descriptor_pool(&mut device, 1);
    let desc = layout.create_desc_set(&mut pool, &mut device);
    assert_eq!(pool.allocated_sets, 1);
    let tint = Rgba { r: 255, g: 255, b: 255, a: 255 };
    let bytes = rgba_bytes(tint);
    let uniform = Uniform::new(&mut device, &bytes, desc, 0);
    let buffer = uniform.buffer.as_ref().unwrap();
    assert_eq!(buffer.usage, BufferUsage::Uniform);
    assert_eq!(buffer.contents, bytes);
    let set = uniform.desc.as_ref().unwrap();
    assert!(set.written);
    assert_eq!(
        set.writes,
        vec![DescSetWrite {
            binding: 0,
            array_offset: 0,
            descriptor: Descriptor::Buffer(buffer.buffer_id),
        }]
    );
}

#[test]
fn channel_bytes_are_little_endian() {
    let c = Rgba { r: 0x0102030405060708, g: 1, b: 0, a: 510 };
    let bytes = rgba_bytes(c);
    assert_eq!(bytes.len(), 32);
    assert_eq!(&bytes[0..8], &[8, 7, 6, 5, 4, 3, 2, 1]);
    assert_eq!(&bytes[8..16], &[1, 0, 0, 0, 0, 0, 0, 0]);
    assert_eq!(&bytes[16..24], &[0, 0, 0, 0, 0, 0, 0, 0]);
    assert_eq!(&bytes[24..32], &[254, 1, 0, 0, 0, 0, 0, 0]);
}

#[test]
fn pipeline_uses_the_fixed_vertex_layout() {
    let mut device = test_device();
    let pipeline = PipelineState::new(&mut device, vec![4, 5], 7);
    assert_eq!(pipeline.vertex_stride, 16);
    assert_eq!(pipeline.push_constant_bytes, 8);
    assert!(matches!(pipeline.topology, PrimitiveTopology::TriangleList));
    assert!(matches!(pipeline.polygon_mode, PolygonMode::Fill));
    assert!(pipeline.alpha_blending);
    assert_eq!(pipeline.set_layouts, vec![4, 5]);
    assert_eq!(pipeline.render_pass_id, 7);
    assert_eq!(pipeline.attributes.len(), 2);
    assert_eq!(pipeline.attributes[0].location, 0);
    assert_eq!(pipeline.attributes[0].offset, 0);
    assert!(matches!(pipeline.attributes[0].format, AttributeFormat::Rg32Sfloat));
    assert_eq!(pipeline.attributes[1].location, 1);
    assert_eq!(pipeline.attributes[1].offset, 8);
}

#[test]
fn pipeline_destroy_releases_pipeline_before_layout() {
    let mut device = test_device();
    let mut pipeline = PipelineState::new(&mut device, vec![0, 1], 2);
    let len_before = device.log.len();
    pipeline.destroy(&mut device);
    assert_eq!(
        &device.log[len_before..],
        &[
            GpuOp::DestroyPipeline(pipeline.pipeline_id),
            GpuOp::DestroyPipelineLayout(pipeline.pipeline_layout_id),
        ]
    );
}

#[test]
fn frame_slots_tear_down_pools_then_semaphores() {
    let mut device = test_device();
    let mut fb = FramebufferState::new(&mut device, 2);
    assert_eq!(fb.slots.len(), 2);
    let p0 = fb.slots[0].pool_id;
    let p1 = fb.slots[1].pool_id;
    let s0 = fb.slots[0].semaphore_id;
    let s1 = fb.slots[1].semaphore_id;
    let len_before = device.log.len();
    fb.destroy(&mut device);
    assert!(!fb.alive);
    assert_eq!(
        &device.log[len_before..],
        &[
            GpuOp::DestroyCommandPool(p0),
            GpuOp::DestroyCommandPool(p1),
            GpuOp::DestroySemaphore(s0),
            GpuOp::DestroySemaphore(s1),
        ]
    );
}
