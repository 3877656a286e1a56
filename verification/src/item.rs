//! The uniform-buffer binding and the sampled 2-D image.
//!
//! `Uniform` pairs a host-visible buffer with the descriptor set that
//! exposes it to the fragment shader.  `ImageState` owns everything an
//! image upload creates: the transient staging buffer, the
//! device-local image with its view and sampler, the one-shot transfer
//! command list, and the fence that signals when the GPU has finished
//! the copy.  The image is shader-readable only after that fence, and
//! destruction waits on it before any object is released.

use vstd::prelude::*;

use crate::buffer::{
    row_major, row_pitch_spec, upload_type_exists, BufferState, BufferUsage, Dimensions,
};
use crate::desc::{DescSet, DescSetWrite, Descriptor};
use crate::device::{
    device_local_properties, memory_type_matches, select_memory_type, DeviceState, GpuOp,
    MemoryProperties,
};

verus! {

/// What a PNG byte stream decodes to: `None` when the bytes are not a
/// well-formed PNG, else the image's width, height, and tightly packed
/// RGBA8 pixels (four bytes per texel, row-major).
pub uninterp spec fn png_rgba_of(bytes: Seq<u8>) -> Option<(u32, u32, Seq<u8>)>;

/// Relies on `image::load_from_memory_with_format` with the PNG
/// format, and `DynamicImage::into_rgba8`: decoding is a function of
/// the bytes alone, and the RGBA8 buffer holds exactly
/// `width * height * 4` samples.
#[verifier::external_body]
pub(crate) fn decode_png(bytes: &Vec<u8>) -> (r: Option<(u32, u32, Vec<u8>)>)
    ensures
        match r {
            Some(t) => {
                &&& png_rgba_of(bytes@) == Some((t.0, t.1, t.2@))
                &&& t.2@.len() == 4 * t.0 * t.1
            },
            None => png_rgba_of(bytes@) is None,
        },
{
    let decoded = image::load_from_memory_with_format(bytes.as_slice(), image::ImageFormat::Png);
    match decoded {
        Ok(img) => {
            let rgba = img.into_rgba8();
            let (w, h) = rgba.dimensions();
            Some((w, h, rgba.into_raw()))
        },
        Err(_) => None,
    }
}

/// A uniform buffer together with the descriptor set binding it to the
/// fragment shader.
pub struct Uniform {
    pub buffer: Option<BufferState>,
    pub desc: Option<DescSet>,
}

impl Uniform {
    /// Create the uniform buffer from its initial bytes and write it
    /// into the descriptor set at `binding`.
    pub fn new(device: &mut DeviceState, data: &[u8], desc: DescSet, binding: u32) -> (r: Uniform)
        requires
            old(device).wf(),
            old(device).next_id + 2 <= u64::MAX,
            upload_type_exists(*old(device)),
            !desc.written,
        ensures
            r.buffer is Some,
            r.desc is Some,
            r.buffer->Some_0.wf(),
            r.buffer->Some_0.alive,
            r.buffer->Some_0.usage == BufferUsage::Uniform,
            r.buffer->Some_0.size == data@.len(),
            r.buffer->Some_0.contents@ == data@,
            r.buffer->Some_0.buffer_id == old(device).next_id,
            r.buffer->Some_0.memory_id == old(device).next_id + 1,
            r.desc->Some_0.written,
            r.desc->Some_0.set_id == desc.set_id,
            r.desc->Some_0.layout == desc.layout,
            r.desc->Some_0.writes@ =~= seq![
                DescSetWrite {
                    binding,
                    array_offset: 0u32,
                    descriptor: Descriptor::Buffer(old(device).next_id),
                },
            ],
            final(device).log@ == old(device).log@ + seq![
                GpuOp::CreateBuffer(old(device).next_id),
                GpuOp::AllocateMemory((old(device).next_id + 1) as u64),
                GpuOp::WriteDescriptorSet(desc.set_id),
            ],
            final(device).next_id == old(device).next_id + 2,
            final(device).wf(),
            final(device).memory_types == old(device).memory_types,
            final(device).limits == old(device).limits,
            final(device).buffer_type_mask == old(device).buffer_type_mask,
            final(device).image_type_mask == old(device).image_type_mask,
    {
        let buffer = BufferState::new(device, data, BufferUsage::Uniform);
        let mut desc = desc;
        let mut writes: Vec<DescSetWrite> = Vec::new();
        writes.push(
            DescSetWrite {
                binding,
                array_offset: 0,
                descriptor: Descriptor::Buffer(buffer.get_buffer()),
            },
        );
        desc.write_to_state(writes, device);
        proof {
            assert(device.log@ =~= old(device).log@ + seq![
                GpuOp::CreateBuffer(old(device).next_id),
                GpuOp::AllocateMemory((old(device).next_id + 1) as u64),
                GpuOp::WriteDescriptorSet(desc.set_id),
            ]);
        }
        Uniform { buffer: Some(buffer), desc: Some(desc) }
    }

    /// The descriptor-set layout handle, for building the pipeline
    /// layout.
    pub fn get_layout(&self) -> (r: u64)
        requires
            self.desc is Some,
        ensures
            r == self.desc->Some_0.layout.layout_id,
    {
        match &self.desc {
            Some(d) => d.get_layout(),
            None => 0,
        }
    }
}

/// A layout an image or attachment moves through.
#[derive(Clone, Copy, PartialEq, Eq, Structural, Debug)]
pub enum ImageLayout {
    Undefined,
    TransferDstOptimal,
    ShaderReadOnlyOptimal,
    ColorAttachmentOptimal,
    Present,
}

/// One command of the one-shot transfer command list.
#[derive(Clone, Copy, PartialEq, Eq, Structural, Debug)]
pub enum TransferCommand {
    BeginOneTime,
    /// A pipeline barrier transitioning the image between layouts.
    Barrier { image: u64, from: ImageLayout, to: ImageLayout },
    /// Copy the staging buffer into the image.  `buffer_width` is the
    /// staging row length in texels: the row pitch over the texel
    /// stride.
    CopyBufferToImage {
        buffer: u64,
        image: u64,
        buffer_width: u32,
        buffer_height: u32,
        width: u32,
        height: u32,
    },
    Finish,
}

/// The canonical one-shot transfer command list: transition to
/// transfer destination, copy rows at the staging pitch, transition to
/// shader read.
pub open spec fn transfer_commands_spec(
    buffer: u64,
    image: u64,
    row_pitch: u32,
    width: u32,
    height: u32,
) -> Seq<TransferCommand> {
    seq![
        TransferCommand::BeginOneTime,
        TransferCommand::Barrier {
            image,
            from: ImageLayout::Undefined,
            to: ImageLayout::TransferDstOptimal,
        },
        TransferCommand::CopyBufferToImage {
            buffer,
            image,
            buffer_width: (row_pitch / 4) as u32,
            buffer_height: height,
            width,
            height,
        },
        TransferCommand::Barrier {
            image,
            from: ImageLayout::TransferDstOptimal,
            to: ImageLayout::ShaderReadOnlyOptimal,
        },
        TransferCommand::Finish,
    ]
}

/// Does the device offer a device-local memory type for images?
pub open spec fn image_memory_type_exists(d: DeviceState) -> bool {
    exists|j: int|
        0 <= j < d.memory_types@.len() && memory_type_matches(
            d.memory_types@,
            d.image_type_mask,
            MemoryProperties { cpu_visible: false, coherent: false, device_local: true },
            j,
        )
}

/// The exact sequence of driver calls an image upload issues, after
/// the staging buffer's own two.
pub open spec fn image_setup_ops(img: ImageState) -> Seq<GpuOp> {
    seq![
        GpuOp::CreateImage(img.image_id),
        GpuOp::AllocateMemory(img.memory_id),
        GpuOp::CreateImageView(img.image_view_id),
        GpuOp::CreateSampler(img.sampler_id),
        GpuOp::WriteDescriptorSet(img.desc.set_id),
        GpuOp::CreateFence(img.fence_id),
        GpuOp::SubmitTransfer(img.fence_id),
    ]
}

/// The exact teardown sequence of an image: wait on the transfer
/// fence, then release fence, sampler, view, image, memory — the
/// reverse of creation — and last the staging buffer's pair.
pub open spec fn image_teardown_ops(img: ImageState) -> Seq<GpuOp> {
    seq![
        GpuOp::WaitFence(img.fence_id),
        GpuOp::DestroyFence(img.fence_id),
        GpuOp::DestroySampler(img.sampler_id),
        GpuOp::DestroyImageView(img.image_view_id),
        GpuOp::DestroyImage(img.image_id),
        GpuOp::FreeMemory(img.memory_id),
        GpuOp::DestroyBuffer(img.buffer.buffer_id),
        GpuOp::FreeMemory(img.buffer.memory_id),
    ]
}

/// Is an op one that releases an object or its memory?
pub open spec fn is_release_op(op: GpuOp) -> bool {
    match op {
        GpuOp::DestroyFence(_) => true,
        GpuOp::DestroySampler(_) => true,
        GpuOp::DestroyImageView(_) => true,
        GpuOp::DestroyImage(_) => true,
        GpuOp::FreeMemory(_) => true,
        GpuOp::DestroyBuffer(_) => true,
        _ => false,
    }
}

/// Destroying an image is safe while GPU work may still target it: the
/// teardown starts by waiting on the transfer fence, and every release
/// comes after that wait.
pub proof fn lemma_image_teardown_waits_first(img: ImageState)
    ensures
        image_teardown_ops(img).len() == 8,
        image_teardown_ops(img)[0] == GpuOp::WaitFence(img.fence_id),
        forall|j: int|
            1 <= j < image_teardown_ops(img).len() ==> is_release_op(
                #[trigger] image_teardown_ops(img)[j],
            ),
{
    let ops = image_teardown_ops(img);
    assert forall|j: int| 1 <= j < ops.len() implies is_release_op(ops[j]) by {
        if j == 1 {
            assert(is_release_op(ops[1]));
        } else if j == 2 {
            assert(is_release_op(ops[2]));
        } else if j == 3 {
            assert(is_release_op(ops[3]));
        } else if j == 4 {
            assert(is_release_op(ops[4]));
        } else if j == 5 {
            assert(is_release_op(ops[5]));
        } else if j == 6 {
            assert(is_release_op(ops[6]));
        } else {
            assert(is_release_op(ops[7]));
        }
    }
}

/// A sampled 2-D image and everything its upload created.
pub struct ImageState {
    /// The set binding the image view and sampler to the shader.
    pub desc: DescSet,
    /// The transient staging buffer the pixels were uploaded through.
    pub buffer: BufferState,
    /// Id of the sampler object.
    pub sampler_id: u64,
    /// Id of the image view.
    pub image_view_id: u64,
    /// Id of the image object.
    pub image_id: u64,
    /// Id of the image's device-local memory.
    pub memory_id: u64,
    /// The index of the memory type the image memory came from.
    pub memory_type: usize,
    /// Id of the transfer-completion fence.
    pub fence_id: u64,
    /// The one-shot command list submitted for the upload.
    pub transfer_cmds: Vec<TransferCommand>,
    /// The image's size in texels.
    pub dims: Dimensions<u32>,
    /// The staging buffer's row pitch in bytes.
    pub row_pitch: u32,
    /// The CPU has waited on the transfer fence.
    pub fence_waited: bool,
    /// The objects are still live; destruction clears this.
    pub alive: bool,
}

impl ImageState {
    /// A live image still owns its live staging buffer.
    pub open spec fn wf(&self) -> bool {
        &&& self.alive ==> self.buffer.alive
        &&& self.buffer.wf()
    }

    /// Upload `img` (tightly packed RGBA8, row-major) as a sampled
    /// image: stage the pixels row-pitch-aligned, create the
    /// device-local image, view and sampler, write them into `desc`,
    /// and submit the one-shot transfer commands with a fresh fence.
    /// The caller supplies the transient staging command pool.
    pub fn new(
        desc: DescSet,
        img: &[u8],
        width: u32,
        height: u32,
        device: &mut DeviceState,
        staging_pool_id: u64,
    ) -> (r: ImageState)
        requires
            old(device).wf(),
            old(device).next_id + 7 <= u64::MAX,
            upload_type_exists(*old(device)),
            image_memory_type_exists(*old(device)),
            !desc.written,
            img@.len() == 4 * width * height,
            4 * width + old(device).limits.optimal_buffer_copy_pitch_alignment <= u32::MAX,
            height * row_pitch_spec(width, old(device).limits.optimal_buffer_copy_pitch_alignment)
                <= usize::MAX,
        ensures
            r.wf(),
            r.alive,
            !r.fence_waited,
            r.dims == (Dimensions { width, height }),
            r.row_pitch == row_pitch_spec(
                width,
                old(device).limits.optimal_buffer_copy_pitch_alignment,
            ),
            r.buffer.alive,
            r.buffer.usage == BufferUsage::TransferSrc,
            r.buffer.size == height * r.row_pitch,
            r.buffer.contents@.len() == height * r.row_pitch,
            forall|y: int, c: int|
                0 <= y < height && 0 <= c < 4 * width ==> r.buffer.contents@[#[trigger] row_major(
                    y,
                    r.row_pitch as int,
                    c,
                )] == img@[row_major(y, 4 * width, c)],
            r.buffer.buffer_id == old(device).next_id,
            r.buffer.memory_id == old(device).next_id + 1,
            r.image_id == old(device).next_id + 2,
            r.memory_id == old(device).next_id + 3,
            r.memory_type < old(device).memory_types@.len(),
            memory_type_matches(
                old(device).memory_types@,
                old(device).image_type_mask,
                MemoryProperties { cpu_visible: false, coherent: false, device_local: true },
                r.memory_type as int,
            ),
            forall|j: int|
                0 <= j < r.memory_type ==> !memory_type_matches(
                    old(device).memory_types@,
                    old(device).image_type_mask,
                    MemoryProperties { cpu_visible: false, coherent: false, device_local: true },
                    j,
                ),
            r.image_view_id == old(device).next_id + 4,
            r.sampler_id == old(device).next_id + 5,
            r.fence_id == old(device).next_id + 6,
            r.desc.written,
            r.desc.set_id == desc.set_id,
            r.desc.layout == desc.layout,
            r.desc.writes@ =~= seq![
                DescSetWrite {
                    binding: 0u32,
                    array_offset: 0u32,
                    descriptor: Descriptor::Image(r.image_view_id),
                },
                DescSetWrite {
                    binding: 1u32,
                    array_offset: 0u32,
                    descriptor: Descriptor::Sampler(r.sampler_id),
                },
            ],
            r.transfer_cmds@ =~= transfer_commands_spec(
                r.buffer.buffer_id,
                r.image_id,
                r.row_pitch,
                width,
                height,
            ),
            final(device).log@ == old(device).log@ + seq![
                GpuOp::CreateBuffer(r.buffer.buffer_id),
                GpuOp::AllocateMemory(r.buffer.memory_id),
            ] + image_setup_ops(r),
            final(device).next_id == old(device).next_id + 7,
            final(device).wf(),
            final(device).memory_types == old(device).memory_types,
            final(device).limits == old(device).limits,
            final(device).buffer_type_mask == old(device).buffer_type_mask,
            final(device).image_type_mask == old(device).image_type_mask,
    {
        let (buffer, dims, row_pitch, stride) = BufferState::new_texture(
            device,
            img,
            width,
            height,
            BufferUsage::TransferSrc,
        );

        let image_id = device.fresh_id();
        device.log_op(GpuOp::CreateImage(image_id));

        let device_type = select_memory_type(
            &device.memory_types,
            device.image_type_mask,
            device_local_properties(),
        );
        let memory_type = match device_type {
            Some(i) => i,
            None => {
                proof {
                    assert(false);
                }
                0
            },
        };

        let memory_id = device.fresh_id();
        device.log_op(GpuOp::AllocateMemory(memory_id));

        let image_view_id = device.fresh_id();
        device.log_op(GpuOp::CreateImageView(image_view_id));

        let sampler_id = device.fresh_id();
        device.log_op(GpuOp::CreateSampler(sampler_id));

        let mut desc = desc;
        let mut writes: Vec<DescSetWrite> = Vec::new();
        writes.push(
            DescSetWrite {
                binding: 0,
                array_offset: 0,
                descriptor: Descriptor::Image(image_view_id),
            },
        );
        writes.push(
            DescSetWrite { binding: 1, array_offset: 0, descriptor: Descriptor::Sampler(sampler_id) },
        );
        desc.write_to_state(writes, device);

        let fence_id = device.fresh_id();
        device.log_op(GpuOp::CreateFence(fence_id));

        let _ = staging_pool_id;  // the one-shot command buffer is transient, allocated from the caller's pool
        let mut transfer_cmds: Vec<TransferCommand> = Vec::new();
        transfer_cmds.push(TransferCommand::BeginOneTime);
        transfer_cmds.push(
            TransferCommand::Barrier {
                image: image_id,
                from: ImageLayout::Undefined,
                to: ImageLayout::TransferDstOptimal,
            },
        );
        transfer_cmds.push(
            TransferCommand::CopyBufferToImage {
                buffer: buffer.get_buffer(),
                image: image_id,
                buffer_width: row_pitch / (stride as u32),
                buffer_height: height,
                width: dims.width,
                height: dims.height,
            },
        );
        transfer_cmds.push(
            TransferCommand::Barrier {
                image: image_id,
                from: ImageLayout::TransferDstOptimal,
                to: ImageLayout::ShaderReadOnlyOptimal,
            },
        );
        transfer_cmds.push(TransferCommand::Finish);

        device.log_op(GpuOp::SubmitTransfer(fence_id));

        let r = ImageState {
            desc,
            buffer,
            sampler_id,
            image_view_id,
            image_id,
            memory_id,
            memory_type,
            fence_id,
            transfer_cmds,
            dims,
            row_pitch,
            fence_waited: false,
            alive: true,
        };
        proof {
            assert(device.log@ =~= old(device).log@ + seq![
                GpuOp::CreateBuffer(r.buffer.buffer_id),
                GpuOp::AllocateMemory(r.buffer.memory_id),
            ] + image_setup_ops(r));
        }
        r
    }

    /// Block until the transfer fence signals.  The image is
    /// shader-readable only after this (or after the implicit wait in
    /// `destroy`).
    pub fn wait_for_transfer_completion(&mut self, device: &mut DeviceState)
        requires
            old(self).alive,
        ensures
            final(self).fence_waited,
            *final(self) == (ImageState { fence_waited: true, ..*old(self) }),
            final(device).log@ == old(device).log@.push(GpuOp::WaitFence(old(self).fence_id)),
            final(device).next_id == old(device).next_id,
            final(device).wf() == old(device).wf(),
            final(device).memory_types == old(device).memory_types,
            final(device).limits == old(device).limits,
            final(device).buffer_type_mask == old(device).buffer_type_mask,
            final(device).image_type_mask == old(device).image_type_mask,
    {
        device.log_op(GpuOp::WaitFence(self.fence_id));
        self.fence_waited = true;
    }

    /// The descriptor-set layout handle, for building the pipeline
    /// layout.
    pub fn get_layout(&self) -> (r: u64)
        ensures
            r == self.desc.layout.layout_id,
    {
        self.desc.get_layout()
    }

    /// Tear the image down: wait on the transfer fence — so this is
    /// safe even while the upload may still be in flight — then
    /// release fence, sampler, view, image and memory in reverse
    /// creation order, and finally the staging buffer.  A second call
    /// is a no-op.
    pub fn destroy(&mut self, device: &mut DeviceState)
        requires
            old(self).wf(),
        ensures
            !final(self).alive,
            final(self).wf(),
            final(self).fence_waited || !old(self).alive,
            old(self).alive ==> final(device).log@ == old(device).log@ + image_teardown_ops(
                *old(self),
            ),
            !old(self).alive ==> *final(device) == *old(device) && *final(self) == *old(self),
            final(device).next_id == old(device).next_id,
            final(device).wf() == old(device).wf(),
            final(device).memory_types == old(device).memory_types,
            final(device).limits == old(device).limits,
            final(device).buffer_type_mask == old(device).buffer_type_mask,
            final(device).image_type_mask == old(device).image_type_mask,
    {
        if !self.alive {
            return ;
        }
        device.log_op(GpuOp::WaitFence(self.fence_id));
        self.fence_waited = true;
        device.log_op(GpuOp::DestroyFence(self.fence_id));
        device.log_op(GpuOp::DestroySampler(self.sampler_id));
        device.log_op(GpuOp::DestroyImageView(self.image_view_id));
        device.log_op(GpuOp::DestroyImage(self.image_id));
        device.log_op(GpuOp::FreeMemory(self.memory_id));
        self.buffer.destroy(device);
        self.alive = false;
        proof {
            assert(device.log@ =~= old(device).log@ + image_teardown_ops(*old(self)));
        }
    }
}

} // verus!
