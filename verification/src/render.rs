//! The renderer: colour state, command recording, and the frame loop.
//!
//! `RendererState` owns the whole resource graph and runs the
//! per-frame draw cycle.  Everything the engine decides in a frame —
//! which slot to use, which commands to record, when to recreate the
//! swapchain — is a function of the renderer's state and of the
//! acquire/present outcomes the presentation layer reports back.

use vstd::prelude::*;

use crate::buffer::{
    frame_setup_ops, pool_destroy_ops, row_major, row_pitch_spec, semaphore_destroy_ops,
    BufferState, BufferUsage, CommandBufferModel, Dimensions, FramebufferState,
};
use crate::desc::{
    create_descriptor_pool, destroy_descriptor_pool, DescSetLayout, DescSetLayoutBinding,
    DescSetWrite, Descriptor, DescriptorPool, DescriptorType, ShaderStage,
};
use crate::device::{
    is_power_of_two, memory_type_matches, DeviceState, GpuOp, Limits, MemoryProperties, MemoryType,
};
use crate::item::{
    decode_png, image_memory_type_exists, image_setup_ops, image_teardown_ops, png_rgba_of,
    transfer_commands_spec, ImageLayout, ImageState, Uniform,
};
use crate::pipeline::{
    pipeline_setup_ops, vertex_attributes_spec, PipelineState, PolygonMode, PrimitiveTopology,
    PUSH_CONSTANT_BYTES, VERTEX_STRIDE,
};
use crate::swapchain::{
    selected_format, slot_of, Extent2d, Format, SurfaceCapabilities, SwapchainState, Viewport,
    DEFAULT_HEIGHT, DEFAULT_WIDTH,
};

verus! {

/// An RGBA colour with each channel a numerator over 255: `255` is
/// full intensity (1.0), `510` double, and so on.  Channel edits work
/// in this fixed-point form; the presentation layer divides by 255
/// when it hands the value to the GPU.
#[derive(Clone, Copy, PartialEq, Eq, Structural, Debug)]
pub struct Rgba {
    pub r: u64,
    pub g: u64,
    pub b: u64,
    pub a: u64,
}

/// The colour channel the input accumulator currently edits.
#[derive(Clone, Copy, PartialEq, Eq, Structural, Debug)]
pub enum Color {
    Red,
    Green,
    Blue,
    Alpha,
}

/// One recorded command of a frame's command buffer.
#[derive(Clone, Copy, PartialEq, Eq, Structural, Debug)]
pub enum RenderCommand {
    SetViewport(Viewport),
    SetScissor(Viewport),
    BindPipeline(u64),
    BindVertexBuffer(u64),
    /// Bind the image+sampler set and the uniform set against a
    /// pipeline layout.
    BindDescriptorSets { layout: u64, image_set: u64, uniform_set: u64 },
    /// Begin the pass, clearing the target to the background colour.
    BeginRenderPass { render_pass: u64, framebuffer: u64, clear: Rgba },
    /// A non-indexed draw over a vertex and an instance range.
    Draw { vertex_start: u32, vertex_end: u32, instance_start: u32, instance_end: u32 },
    EndRenderPass,
    Finish,
}

/// What happens to an attachment's contents when the pass begins.
#[derive(Clone, Copy, PartialEq, Eq, Structural, Debug)]
pub enum AttachmentLoadOp {
    Clear,
    DontCare,
}

/// What happens to an attachment's contents when the pass ends.
#[derive(Clone, Copy, PartialEq, Eq, Structural, Debug)]
pub enum AttachmentStoreOp {
    Store,
    DontCare,
}

/// The declaration of the render pass's one colour attachment.
#[derive(Clone, Copy, PartialEq, Eq, Structural, Debug)]
pub struct ColorAttachment {
    /// The attachment's pixel format.
    pub format: Format,
    /// Samples per texel.
    pub samples: u32,
    /// What happens to the colour contents on load.
    pub load_op: AttachmentLoadOp,
    /// What happens to them on completion.
    pub store_op: AttachmentStoreOp,
    /// Stencil handling on load.
    pub stencil_load_op: AttachmentLoadOp,
    /// Stencil handling on completion.
    pub stencil_store_op: AttachmentStoreOp,
    /// The layout the image is in when the pass begins.
    pub initial_layout: ImageLayout,
    /// The layout it is left in for presentation.
    pub final_layout: ImageLayout,
}

/// The attachment the quad's render pass declares: the swapchain's
/// format, single-sampled, cleared on load, stored on completion,
/// stencil ignored, transitioning from undefined to presentable.
pub open spec fn color_attachment_spec(format: Format) -> ColorAttachment {
    ColorAttachment {
        format,
        samples: 1u32,
        load_op: AttachmentLoadOp::Clear,
        store_op: AttachmentStoreOp::Store,
        stencil_load_op: AttachmentLoadOp::DontCare,
        stencil_store_op: AttachmentStoreOp::DontCare,
        initial_layout: ImageLayout::Undefined,
        final_layout: ImageLayout::Present,
    }
}

/// The render pass the quad is drawn in: exactly one colour
/// attachment, and one subpass that draws to it alone — there are no
/// depth, input, resolve or preserve attachments to model.
pub struct RenderPassState {
    /// Id of the render-pass object.
    pub render_pass_id: u64,
    /// The colour attachment's format.
    pub format: Format,
    /// The single colour attachment's declaration.
    pub attachment: ColorAttachment,
    /// The layout the one subpass uses the attachment in.
    pub subpass_color_layout: ImageLayout,
    /// The subpass carries a depth-stencil attachment (never, here).
    pub has_depth_stencil: bool,
    /// The object is still live; destruction clears this.
    pub alive: bool,
}

/// A live render pass over `format`, as `RenderPassState::new`
/// declares it.
pub open spec fn canonical_render_pass(render_pass_id: u64, format: Format) -> RenderPassState {
    RenderPassState {
        render_pass_id,
        format,
        attachment: color_attachment_spec(format),
        subpass_color_layout: ImageLayout::ColorAttachmentOptimal,
        has_depth_stencil: false,
        alive: true,
    }
}

impl RenderPassState {
    /// Create the render pass against the swapchain's format: one
    /// cleared-and-stored colour attachment ending presentable, one
    /// subpass drawing to it in colour-attachment layout, no depth.
    pub fn new(device: &mut DeviceState, swapchain: &SwapchainState) -> (r: RenderPassState)
        requires
            old(device).next_id < u64::MAX,
        ensures
            r == canonical_render_pass(old(device).next_id, swapchain.format),
            final(device).log@ == old(device).log@.push(GpuOp::CreateRenderPass(r.render_pass_id)),
            final(device).next_id == old(device).next_id + 1,
            final(device).wf() == old(device).wf(),
            final(device).memory_types == old(device).memory_types,
            final(device).limits == old(device).limits,
            final(device).buffer_type_mask == old(device).buffer_type_mask,
            final(device).image_type_mask == old(device).image_type_mask,
    {
        let render_pass_id = device.fresh_id();
        device.log_op(GpuOp::CreateRenderPass(render_pass_id));
        let attachment = ColorAttachment {
            format: swapchain.format,
            samples: 1,
            load_op: AttachmentLoadOp::Clear,
            store_op: AttachmentStoreOp::Store,
            stencil_load_op: AttachmentLoadOp::DontCare,
            stencil_store_op: AttachmentStoreOp::DontCare,
            initial_layout: ImageLayout::Undefined,
            final_layout: ImageLayout::Present,
        };
        RenderPassState {
            render_pass_id,
            format: swapchain.format,
            attachment,
            subpass_color_layout: ImageLayout::ColorAttachmentOptimal,
            has_depth_stencil: false,
            alive: true,
        }
    }

    /// Release the render pass.  A second call is a no-op.
    pub fn destroy(&mut self, device: &mut DeviceState)
        ensures
            !final(self).alive,
            *final(self) == (RenderPassState { alive: false, ..*old(self) }),
            old(self).alive ==> final(device).log@ == old(device).log@.push(
                GpuOp::DestroyRenderPass(old(self).render_pass_id),
            ),
            !old(self).alive ==> *final(device) == *old(device) && *final(self) == *old(self),
            final(device).next_id == old(device).next_id,
            final(device).wf() == old(device).wf(),
            final(device).memory_types == old(device).memory_types,
            final(device).limits == old(device).limits,
            final(device).buffer_type_mask == old(device).buffer_type_mask,
            final(device).image_type_mask == old(device).image_type_mask,
    {
        if self.alive {
            device.log_op(GpuOp::DestroyRenderPass(self.render_pass_id));
            self.alive = false;
        }
    }
}

/// The little-endian bytes of one colour channel.
pub open spec fn u64_le_bytes(v: u64) -> Seq<u8> {
    Seq::new(8, |i: int| ((v >> ((8 * i) as u64)) & 0xff) as u8)
}

/// The byte image of a colour as it sits in the uniform buffer: the
/// four channel numerators, little endian, red first.
pub open spec fn rgba_bytes_spec(c: Rgba) -> Seq<u8> {
    u64_le_bytes(c.r) + u64_le_bytes(c.g) + u64_le_bytes(c.b) + u64_le_bytes(c.a)
}

/// Append one channel's little-endian bytes.
fn push_u64_le(out: &mut Vec<u8>, v: u64)
    ensures
        final(out)@ == old(out)@ + u64_le_bytes(v),
{
    let mut k: usize = 0;
    while k < 8
        invariant
            k <= 8,
            out@ == old(out)@ + u64_le_bytes(v).take(k as int),
        decreases 8 - k,
    {
        let sh: u64 = 8 * (k as u64);
        proof {
            assert(((v >> sh) & 0xff) < 256) by (bit_vector);
        }
        let b = ((v >> sh) & 0xff) as u8;
        out.push(b);
        proof {
            assert(u64_le_bytes(v).take(k + 1) =~= u64_le_bytes(v).take(k as int).push(b));
        }
        k = k + 1;
    }
    proof {
        assert(u64_le_bytes(v).take(8) =~= u64_le_bytes(v));
    }
}

/// The uniform-buffer bytes of a colour.
pub fn rgba_bytes(c: Rgba) -> (r: Vec<u8>)
    ensures
        r@ == rgba_bytes_spec(c),
        r@.len() == 32,
{
    let mut out: Vec<u8> = Vec::new();
    push_u64_le(&mut out, c.r);
    push_u64_le(&mut out, c.g);
    push_u64_le(&mut out, c.b);
    push_u64_le(&mut out, c.a);
    proof {
        assert(out@ =~= rgba_bytes_spec(c));
    }
    out
}

/// The command sequence one frame records: viewport and scissor, the
/// pipeline, the quad's vertex buffer, both descriptor sets, a render
/// pass cleared to the background colour, and one non-indexed draw of
/// six vertices as two triangles.
pub open spec fn draw_commands_spec(
    viewport: Viewport,
    pipeline_id: u64,
    pipeline_layout_id: u64,
    vertex_buffer_id: u64,
    image_set_id: u64,
    uniform_set_id: u64,
    render_pass_id: u64,
    framebuffer_id: u64,
    clear: Rgba,
) -> Seq<RenderCommand> {
    seq![
        RenderCommand::SetViewport(viewport),
        RenderCommand::SetScissor(viewport),
        RenderCommand::BindPipeline(pipeline_id),
        RenderCommand::BindVertexBuffer(vertex_buffer_id),
        RenderCommand::BindDescriptorSets {
            layout: pipeline_layout_id,
            image_set: image_set_id,
            uniform_set: uniform_set_id,
        },
        RenderCommand::BeginRenderPass { render_pass: render_pass_id, framebuffer: framebuffer_id, clear },
        RenderCommand::Draw {
            vertex_start: 0u32,
            vertex_end: 6u32,
            instance_start: 0u32,
            instance_end: 1u32,
        },
        RenderCommand::EndRenderPass,
        RenderCommand::Finish,
    ]
}

/// What one steady-state frame records, given the state it starts
/// from and the transient framebuffer's id.
pub open spec fn canonical_frame_commands(pre: RendererState, framebuffer_id: u64) -> Seq<
    RenderCommand,
> {
    draw_commands_spec(
        pre.viewport,
        pre.pipeline.pipeline_id,
        pre.pipeline.pipeline_layout_id,
        pre.vertex_buffer.buffer_id,
        pre.image.desc.set_id,
        pre.uniform.desc->Some_0.set_id,
        pre.render_pass.render_pass_id,
        framebuffer_id,
        pre.bg_color,
    )
}

/// The driver calls one steady-state frame issues: the transient
/// framebuffer, the slot's pool reset, the submission signalling the
/// slot's semaphore, the presentation waiting on it, and the
/// framebuffer's release.
pub open spec fn frame_ops(framebuffer_id: u64, pool_id: u64, semaphore_id: u64) -> Seq<GpuOp> {
    seq![
        GpuOp::CreateFramebuffer(framebuffer_id),
        GpuOp::ResetCommandPool(pool_id),
        GpuOp::SubmitDraw(semaphore_id),
        GpuOp::Present(semaphore_id),
        GpuOp::DestroyFramebuffer(framebuffer_id),
    ]
}

/// The driver calls a swapchain recreation issues, in order: drain the
/// device, configure the new chain, replace the render pass, replace
/// every frame slot's pool and semaphore, and rebuild the pipeline
/// against the new render pass.  Every old object is destroyed —
/// nothing leaks.
pub open spec fn recreation_ops(pre: RendererState, caps: SurfaceCapabilities) -> Seq<GpuOp> {
    let n = pre.device.next_id;
    let k2 = caps.clamped_image_count_spec();
    seq![
        GpuOp::WaitIdle,
        GpuOp::ConfigureSwapchain(n),
        GpuOp::DestroyRenderPass(pre.render_pass.render_pass_id),
        GpuOp::CreateRenderPass((n + 1) as u64),
    ] + pool_destroy_ops(pre.framebuffer.slots@) + semaphore_destroy_ops(pre.framebuffer.slots@)
        + frame_setup_ops((n + 2) as u64, k2 as int) + seq![
        GpuOp::DestroyPipeline(pre.pipeline.pipeline_id),
        GpuOp::DestroyPipelineLayout(pre.pipeline.pipeline_layout_id),
    ] + pipeline_setup_ops((n + 2 + 2 * k2) as u64)
}


/// The exact driver-call sequence construction issues, in order: the
/// two descriptor-set layouts, the two pools, the two sets, the
/// transient staging command pool (it takes the id handed out just
/// before the image's staging buffer), the image upload, the vertex
/// and uniform buffers, the blocking wait on the transfer fence, the
/// staging pool's release — before the swapchain is configured — and
/// then swapchain, render pass, frame slots and pipeline.
pub open spec fn construction_ops(st: RendererState) -> Seq<GpuOp> {
    let staging_pool = (st.image.buffer.buffer_id - 1) as u64;
    seq![
        GpuOp::CreateDescriptorSetLayout(st.image.desc.layout.layout_id),
        GpuOp::CreateDescriptorSetLayout(st.uniform.desc->Some_0.layout.layout_id),
        GpuOp::CreateDescriptorPool(st.img_desc_pool.pool_id),
        GpuOp::CreateDescriptorPool(st.uniform_desc_pool.pool_id),
        GpuOp::AllocateDescriptorSet(st.image.desc.set_id),
        GpuOp::AllocateDescriptorSet(st.uniform.desc->Some_0.set_id),
        GpuOp::CreateCommandPool(staging_pool),
        GpuOp::CreateBuffer(st.image.buffer.buffer_id),
        GpuOp::AllocateMemory(st.image.buffer.memory_id),
    ] + image_setup_ops(st.image) + seq![
        GpuOp::CreateBuffer(st.vertex_buffer.buffer_id),
        GpuOp::AllocateMemory(st.vertex_buffer.memory_id),
        GpuOp::CreateBuffer(st.uniform.buffer->Some_0.buffer_id),
        GpuOp::AllocateMemory(st.uniform.buffer->Some_0.memory_id),
        GpuOp::WriteDescriptorSet(st.uniform.desc->Some_0.set_id),
        GpuOp::WaitFence(st.image.fence_id),
        GpuOp::DestroyCommandPool(staging_pool),
        GpuOp::ConfigureSwapchain((st.render_pass.render_pass_id - 1) as u64),
        GpuOp::CreateRenderPass(st.render_pass.render_pass_id),
    ] + frame_setup_ops(
        (st.render_pass.render_pass_id + 1) as u64,
        st.swapchain.frame_queue_size as int,
    ) + pipeline_setup_ops(st.pipeline.pipeline_layout_id)
}

/// How a recreation turns `pre` into `post`: the new swapchain is
/// negotiated from `caps` and `formats`, the render pass, frame slots
/// and pipeline are rebuilt fresh (with ids no old object carries),
/// the viewport covers the new extent, and the device log grows by
/// exactly `recreation_ops`.  Colours, buffers, the image and the
/// descriptor pools are untouched.
pub open spec fn recreate_rel(
    pre: RendererState,
    caps: SurfaceCapabilities,
    formats: Option<Vec<Format>>,
    post: RendererState,
) -> bool {
    let n = pre.device.next_id;
    let k2 = caps.clamped_image_count_spec();
    &&& post.device.log@ == pre.device.log@ + recreation_ops(pre, caps)
    &&& post.device.next_id == n + 6 + 2 * k2
    &&& post.device.memory_types == pre.device.memory_types
    &&& post.device.limits == pre.device.limits
    &&& post.device.buffer_type_mask == pre.device.buffer_type_mask
    &&& post.device.image_type_mask == pre.device.image_type_mask
    &&& post.swapchain.wf()
    &&& selected_format(formats, post.swapchain.format)
    &&& post.swapchain.extent == caps.clamped_extent_spec(
        Extent2d { width: DEFAULT_WIDTH, height: DEFAULT_HEIGHT },
    )
    &&& post.swapchain.frame_queue_size == k2
    &&& post.swapchain.frame_index == 0
    &&& post.render_pass == canonical_render_pass((n + 1) as u64, post.swapchain.format)
    &&& post.framebuffer.alive
    &&& post.framebuffer.slots@.len() == k2
    &&& forall|i: int|
        0 <= i < k2 ==> {
            &&& (#[trigger] post.framebuffer.slots@[i]).pool_id == n + 2 + 2 * i
            &&& post.framebuffer.slots@[i].semaphore_id == n + 2 + 2 * i + 1
            &&& post.framebuffer.slots@[i].command_buffers@.len() == 0
        }
    &&& post.pipeline.alive
    &&& post.pipeline.pipeline_layout_id == n + 2 + 2 * k2
    &&& post.pipeline.pipeline_id == n + 5 + 2 * k2
    &&& post.pipeline.render_pass_id == post.render_pass.render_pass_id
    &&& post.pipeline.set_layouts@ =~= seq![
        pre.image.desc.layout.layout_id,
        pre.uniform.desc->Some_0.layout.layout_id,
    ]
    &&& post.pipeline.vertex_stride == VERTEX_STRIDE
    &&& post.pipeline.attributes@ =~= vertex_attributes_spec()
    &&& post.pipeline.push_constant_bytes == PUSH_CONSTANT_BYTES
    &&& post.pipeline.topology == PrimitiveTopology::TriangleList
    &&& post.pipeline.polygon_mode == PolygonMode::Fill
    &&& post.pipeline.alpha_blending
    &&& post.viewport == (Viewport {
        x: 0i16,
        y: 0i16,
        w: post.swapchain.extent.width as i16,
        h: post.swapchain.extent.height as i16,
    })
    &&& post.color == pre.color
    &&& post.bg_color == pre.bg_color
    &&& post.cur_color == pre.cur_color
    &&& post.cur_value == pre.cur_value
    &&& post.vertex_buffer == pre.vertex_buffer
    &&& post.uniform == pre.uniform
    &&& post.image == pre.image
    &&& post.img_desc_pool == pre.img_desc_pool
    &&& post.uniform_desc_pool == pre.uniform_desc_pool
}

/// How one frame turns `pre` into `post`.  A failed acquire only flags
/// the swapchain invalid and skips the frame.  A successful one
/// advances the frame counter, resets the slot the counter selects,
/// records the canonical command sequence into a reused (or one fresh)
/// command buffer, submits it signalling the slot's semaphore, and
/// presents waiting on that semaphore; a failed present flags the
/// swapchain invalid for the next frame.
pub open spec fn frame_rel(
    pre: RendererState,
    post: RendererState,
    acquire: Option<u64>,
    present_ok: bool,
) -> bool {
    match acquire {
        None => post == (RendererState { recreate_swapchain: true, ..pre }),
        Some(_) => {
            let k = pre.swapchain.frame_queue_size;
            let slot = slot_of(pre.swapchain.frame_index as int, k as int);
            let fb = pre.device.next_id;
            let pre_slot = pre.framebuffer.slots@[slot];
            let post_slot = post.framebuffer.slots@[slot];
            let cmds = canonical_frame_commands(pre, fb);
            &&& post.device.log@ == pre.device.log@ + frame_ops(
                fb,
                pre_slot.pool_id,
                pre_slot.semaphore_id,
            )
            &&& post.device.memory_types == pre.device.memory_types
            &&& post.device.limits == pre.device.limits
            &&& post.device.buffer_type_mask == pre.device.buffer_type_mask
            &&& post.device.image_type_mask == pre.device.image_type_mask
            &&& post.swapchain == (SwapchainState {
                frame_index: (pre.swapchain.frame_index + 1) as u64,
                ..pre.swapchain
            })
            &&& post.framebuffer.alive == pre.framebuffer.alive
            &&& post.framebuffer.slots@.len() == pre.framebuffer.slots@.len()
            &&& forall|j: int|
                0 <= j < pre.framebuffer.slots@.len() && j != slot
                    ==> post.framebuffer.slots@[j] == pre.framebuffer.slots@[j]
            &&& post_slot.pool_id == pre_slot.pool_id
            &&& post_slot.semaphore_id == pre_slot.semaphore_id
            &&& if pre_slot.command_buffers@.len() == 0 {
                &&& post.device.next_id == pre.device.next_id + 2
                &&& post_slot.command_buffers@.len() == 1
                &&& post_slot.command_buffers@[0].cb_id == pre.device.next_id + 1
                &&& post_slot.command_buffers@[0].cmds@ == cmds
            } else {
                &&& post.device.next_id == pre.device.next_id + 1
                &&& post_slot.command_buffers@.len() == pre_slot.command_buffers@.len()
                &&& forall|j: int|
                    0 <= j < pre_slot.command_buffers@.len() - 1
                        ==> post_slot.command_buffers@[j] == pre_slot.command_buffers@[j]
                &&& post_slot.command_buffers@.last().cb_id == pre_slot.command_buffers@.last().cb_id
                &&& post_slot.command_buffers@.last().cmds@ == cmds
            }
            &&& post.recreate_swapchain == !present_ok
            &&& post.render_pass == pre.render_pass
            &&& post.pipeline == pre.pipeline
            &&& post.vertex_buffer == pre.vertex_buffer
            &&& post.uniform == pre.uniform
            &&& post.image == pre.image
            &&& post.img_desc_pool == pre.img_desc_pool
            &&& post.uniform_desc_pool == pre.uniform_desc_pool
            &&& post.viewport == pre.viewport
            &&& post.color == pre.color
            &&& post.bg_color == pre.bg_color
            &&& post.cur_color == pre.cur_color
            &&& post.cur_value == pre.cur_value
        },
    }
}

/// A key the colour editor understands.  Digits accumulate a decimal
/// value; R, G, B and A select the channel being edited and reset the
/// accumulator; Return commits the value to the foreground tint; C
/// commits it to the background clear colour.
#[derive(Clone, Copy, PartialEq, Eq, Structural, Debug)]
pub enum Key {
    Key0,
    Key1,
    Key2,
    Key3,
    Key4,
    Key5,
    Key6,
    Key7,
    Key8,
    Key9,
    R,
    G,
    B,
    A,
    Return,
    C,
}

/// The digit a key carries, if any.
pub open spec fn key_digit(key: Key) -> Option<u64> {
    match key {
        Key::Key0 => Some(0u64),
        Key::Key1 => Some(1u64),
        Key::Key2 => Some(2u64),
        Key::Key3 => Some(3u64),
        Key::Key4 => Some(4u64),
        Key::Key5 => Some(5u64),
        Key::Key6 => Some(6u64),
        Key::Key7 => Some(7u64),
        Key::Key8 => Some(8u64),
        Key::Key9 => Some(9u64),
        _ => None,
    }
}

/// `c` with the channel `ch` set to `v`.
pub open spec fn set_channel(c: Rgba, ch: Color, v: u64) -> Rgba {
    match ch {
        Color::Red => Rgba { r: v, ..c },
        Color::Green => Rgba { g: v, ..c },
        Color::Blue => Rgba { b: v, ..c },
        Color::Alpha => Rgba { a: v, ..c },
    }
}

/// `x` scaled by the factor `f / 255`, rounded towards zero: the
/// fixed-point product of two channel values.
pub open spec fn scale_255(x: u64, f: u64) -> int {
    (x * f) / 255
}

/// Does the decoded image fit the upload arithmetic: a row (plus
/// alignment headroom) within `u32`, and the staging allocation within
/// `usize`?
pub open spec fn png_fits(png: Seq<u8>, alignment: u32) -> bool {
    match png_rgba_of(png) {
        None => false,
        Some((w, h, px)) => {
            &&& 4 * w + alignment <= u32::MAX
            &&& h * row_pitch_spec(w, alignment) <= usize::MAX
        },
    }
}

/// The renderer: the whole resource graph, the frame loop's state,
/// and the colour editor.
pub struct RendererState {
    /// The logical device everything is created from.
    pub device: DeviceState,
    /// The presentable-image chain.
    pub swapchain: SwapchainState,
    /// The render pass frames are drawn in.
    pub render_pass: RenderPassState,
    /// One command pool, buffer cache and present semaphore per
    /// swapchain image.
    pub framebuffer: FramebufferState,
    /// The graphics pipeline, bound to `render_pass`.
    pub pipeline: PipelineState,
    /// The quad's six vertices.
    pub vertex_buffer: BufferState,
    /// The foreground tint, as the shader reads it.
    pub uniform: Uniform,
    /// The textured image the quad samples.
    pub image: ImageState,
    /// The pool the image's descriptor set came from.
    pub img_desc_pool: DescriptorPool,
    /// The pool the uniform's descriptor set came from.
    pub uniform_desc_pool: DescriptorPool,
    /// The viewport covering the swapchain extent.
    pub viewport: Viewport,
    /// The swapchain must be recreated before the next frame.
    pub recreate_swapchain: bool,
    /// The foreground tint being edited.
    pub color: Rgba,
    /// The background clear colour.
    pub bg_color: Rgba,
    /// The channel the accumulator edits.
    pub cur_color: Color,
    /// The decimal value being typed.
    pub cur_value: u64,
}

impl RendererState {
    /// Everything the frame loop relies on: the components are live
    /// and consistent with one another, the pipeline is built against
    /// the current render pass, there is one frame slot per swapchain
    /// image, every object id is one the device has handed out, and
    /// the uniform buffer holds exactly the committed tint.
    pub open spec fn wf(&self) -> bool {
        &&& self.device.wf()
        &&& self.swapchain.wf()
        &&& self.render_pass.alive
        &&& self.render_pass.format == self.swapchain.format
        &&& self.render_pass.render_pass_id < self.device.next_id
        &&& self.framebuffer.alive
        &&& self.framebuffer.slots@.len() == self.swapchain.frame_queue_size
        &&& forall|i: int|
            0 <= i < self.framebuffer.slots@.len() ==> {
                &&& (#[trigger] self.framebuffer.slots@[i]).pool_id < self.device.next_id
                &&& self.framebuffer.slots@[i].semaphore_id < self.device.next_id
            }
        &&& self.pipeline.alive
        &&& self.pipeline.render_pass_id == self.render_pass.render_pass_id
        &&& self.pipeline.pipeline_id < self.device.next_id
        &&& self.pipeline.pipeline_layout_id < self.device.next_id
        &&& self.vertex_buffer.alive
        &&& self.vertex_buffer.wf()
        &&& self.uniform.buffer is Some
        &&& self.uniform.buffer->Some_0.alive
        &&& self.uniform.buffer->Some_0.wf()
        &&& self.uniform.buffer->Some_0.size == 32
        &&& self.uniform.buffer->Some_0.contents@ == rgba_bytes_spec(self.color)
        &&& self.uniform.desc is Some
        &&& self.image.alive
        &&& self.image.wf()
        &&& self.viewport == (Viewport {
            x: 0i16,
            y: 0i16,
            w: self.swapchain.extent.width as i16,
            h: self.swapchain.extent.height as i16,
        })
    }


    /// Build the whole renderer from the adapter's reported data, the
    /// surface's capabilities and formats, the embedded PNG, and the
    /// quad's vertex bytes.  Returns `None` exactly when the PNG does
    /// not decode or its decoded size exceeds what the upload
    /// arithmetic can address.
    pub fn new(
        memory_types: Vec<MemoryType>,
        limits: Limits,
        buffer_type_mask: u32,
        image_type_mask: u32,
        caps: SurfaceCapabilities,
        formats: &Option<Vec<Format>>,
        png: &Vec<u8>,
        vertex_data: &[u8],
    ) -> (r: Option<RendererState>)
        requires
            memory_types@.len() <= 32,
            is_power_of_two(limits.optimal_buffer_copy_pitch_alignment),
            exists|j: int|
                0 <= j < memory_types@.len() && memory_type_matches(
                    memory_types@,
                    buffer_type_mask,
                    MemoryProperties { cpu_visible: true, coherent: true, device_local: false },
                    j,
                ),
            exists|j: int|
                0 <= j < memory_types@.len() && memory_type_matches(
                    memory_types@,
                    image_type_mask,
                    MemoryProperties { cpu_visible: false, coherent: false, device_local: true },
                    j,
                ),
            caps.wf(),
            match formats {
                Some(v) => v@.len() > 0,
                None => true,
            },
        ensures
            r is Some <==> png_fits(png@, limits.optimal_buffer_copy_pitch_alignment),
            r is Some ==> ({
                let st = r->Some_0;
                &&& st.wf()
                &&& !st.recreate_swapchain
                &&& st.color == (Rgba { r: 255u64, g: 255u64, b: 255u64, a: 255u64 })
                &&& st.bg_color == (Rgba { r: 204u64, g: 204u64, b: 204u64, a: 255u64 })
                &&& st.cur_color == Color::Red
                &&& st.cur_value == 0
                &&& st.vertex_buffer.usage == BufferUsage::Vertex
                &&& st.vertex_buffer.contents@ == vertex_data@
                &&& selected_format(*formats, st.swapchain.format)
                &&& st.swapchain.extent == caps.clamped_extent_spec(
                    Extent2d { width: DEFAULT_WIDTH, height: DEFAULT_HEIGHT },
                )
                &&& st.swapchain.frame_queue_size == caps.clamped_image_count_spec()
                &&& st.swapchain.frame_index == 0
                &&& st.pipeline.set_layouts@ =~= seq![
                    st.image.desc.layout.layout_id,
                    st.uniform.desc->Some_0.layout.layout_id,
                ]
                &&& st.pipeline.vertex_stride == VERTEX_STRIDE
                &&& st.pipeline.attributes@ =~= vertex_attributes_spec()
                &&& st.pipeline.push_constant_bytes == PUSH_CONSTANT_BYTES
                &&& st.pipeline.topology == PrimitiveTopology::TriangleList
                &&& st.pipeline.polygon_mode == PolygonMode::Fill
                &&& st.pipeline.alpha_blending
                &&& st.image.fence_waited
                &&& st.device.log@ == construction_ops(st)
                &&& st.image.desc.writes@ =~= seq![
                    DescSetWrite {
                        binding: 0u32,
                        array_offset: 0u32,
                        descriptor: Descriptor::Image(st.image.image_view_id),
                    },
                    DescSetWrite {
                        binding: 1u32,
                        array_offset: 0u32,
                        descriptor: Descriptor::Sampler(st.image.sampler_id),
                    },
                ]
                &&& st.uniform.desc->Some_0.writes@ =~= seq![
                    DescSetWrite {
                        binding: 0u32,
                        array_offset: 0u32,
                        descriptor: Descriptor::Buffer(st.uniform.buffer->Some_0.buffer_id),
                    },
                ]
                &&& match png_rgba_of(png@) {
                    Some((w, h, px)) => {
                        &&& st.image.dims == (Dimensions { width: w, height: h })
                        &&& st.image.row_pitch == row_pitch_spec(
                            w,
                            limits.optimal_buffer_copy_pitch_alignment,
                        )
                        &&& st.image.buffer.contents@.len() == h * st.image.row_pitch
                        &&& forall|y: int, c: int|
                            0 <= y < h && 0 <= c < 4 * w ==> st.image.buffer.contents@[
                                #[trigger] row_major(y, st.image.row_pitch as int, c)
                            ] == px[row_major(y, 4 * w, c)]
                        &&& st.image.transfer_cmds@ =~= transfer_commands_spec(
                            st.image.buffer.buffer_id,
                            st.image.image_id,
                            st.image.row_pitch,
                            w,
                            h,
                        )
                    },
                    None => false,
                }
            }),
    {
        let decoded = decode_png(png);
        let (width, height, pixels) = match decoded {
            Some(t) => t,
            None => {
                return None;
            },
        };
        let alignment = limits.optimal_buffer_copy_pitch_alignment;
        let row_need: u64 = 4u64 * (width as u64) + (alignment as u64);
        if row_need > (u32::MAX as u64) {
            return None;
        }
        let mask = alignment - 1;
        let row_pitch = (4 * width + mask) & !mask;
        proof {
            assert(row_pitch == row_pitch_spec(width, alignment));
            assert((height as int) * (row_pitch as int) < 0x1_0000_0000_0000_0000)
                by (nonlinear_arith)
                requires
                    (height as int) < 0x1_0000_0000,
                    (row_pitch as int) < 0x1_0000_0000,
                    0 <= (height as int),
                    0 <= (row_pitch as int),
            ;
        }
        let upload: u64 = (height as u64) * (row_pitch as u64);
        if upload > (usize::MAX as u64) {
            return None;
        }

        let mut device = DeviceState::new(memory_types, limits, buffer_type_mask, image_type_mask);

        let mut image_bindings: Vec<DescSetLayoutBinding> = Vec::new();
        image_bindings.push(
            DescSetLayoutBinding {
                binding: 0,
                ty: DescriptorType::SampledImage,
                count: 1,
                stage: ShaderStage::Fragment,
            },
        );
        image_bindings.push(
            DescSetLayoutBinding {
                binding: 1,
                ty: DescriptorType::Sampler,
                count: 1,
                stage: ShaderStage::Fragment,
            },
        );
        let image_desc_layout = DescSetLayout::new(&mut device, image_bindings);

        let mut uniform_bindings: Vec<DescSetLayoutBinding> = Vec::new();
        uniform_bindings.push(
            DescSetLayoutBinding {
                binding: 0,
                ty: DescriptorType::UniformBuffer,
                count: 1,
                stage: ShaderStage::Fragment,
            },
        );
        let uniform_desc_layout = DescSetLayout::new(&mut device, uniform_bindings);

        let mut img_desc_pool = create_descriptor_pool(&mut device, 1);
        let mut uniform_desc_pool = create_descriptor_pool(&mut device, 1);
        let image_desc = image_desc_layout.create_desc_set(&mut img_desc_pool, &mut device);
        let uniform_desc = uniform_desc_layout.create_desc_set(&mut uniform_desc_pool, &mut device);

        let staging_pool_id = device.fresh_id();
        device.log_op(GpuOp::CreateCommandPool(staging_pool_id));

        let mut image = ImageState::new(
            image_desc,
            pixels.as_slice(),
            width,
            height,
            &mut device,
            staging_pool_id,
        );

        let vertex_buffer = BufferState::new(&mut device, vertex_data, BufferUsage::Vertex);

        let white = Rgba { r: 255, g: 255, b: 255, a: 255 };
        let tint_bytes = rgba_bytes(white);
        let uniform = Uniform::new(&mut device, tint_bytes.as_slice(), uniform_desc, 0);

        image.wait_for_transfer_completion(&mut device);
        device.log_op(GpuOp::DestroyCommandPool(staging_pool_id));

        let swapchain = SwapchainState::new(&mut device, caps, formats);
        let render_pass = RenderPassState::new(&mut device, &swapchain);
        let framebuffer = FramebufferState::new(&mut device, swapchain.frame_queue_size);
        let mut layouts: Vec<u64> = Vec::new();
        layouts.push(image.get_layout());
        layouts.push(uniform.get_layout());
        let pipeline = PipelineState::new(&mut device, layouts, render_pass.render_pass_id);
        let viewport = swapchain.make_viewport();

        let st = RendererState {
            device,
            swapchain,
            render_pass,
            framebuffer,
            pipeline,
            vertex_buffer,
            uniform,
            image,
            img_desc_pool,
            uniform_desc_pool,
            viewport,
            recreate_swapchain: false,
            color: white,
            bg_color: Rgba { r: 204, g: 204, b: 204, a: 255 },
            cur_color: Color::Red,
            cur_value: 0,
        };
        proof {
            assert(st.device.log@ =~= construction_ops(st));
        }
        Some(st)
    }

    /// Feed one key press to the colour editor.  Digits accumulate a
    /// base-10 value; R, G, B, A pick the channel and reset the
    /// accumulator; Return commits `value` (over 255) into the tint's
    /// selected channel and pushes the whole tint to the uniform
    /// buffer; C commits into the background clear colour instead,
    /// premultiplying red, green and blue by the new alpha when alpha
    /// is the selected channel.
    pub fn input(&mut self, key: Key)
        requires
            old(self).wf(),
            key_digit(key) is Some ==> old(self).cur_value * 10 + key_digit(key)->Some_0
                <= u64::MAX,
            key == Key::C && old(self).cur_color == Color::Alpha ==> {
                &&& scale_255(old(self).bg_color.r, old(self).cur_value) <= u64::MAX
                &&& scale_255(old(self).bg_color.g, old(self).cur_value) <= u64::MAX
                &&& scale_255(old(self).bg_color.b, old(self).cur_value) <= u64::MAX
            },
        ensures
            final(self).wf(),
            key_digit(key) is Some ==> *final(self) == (RendererState {
                cur_value: (old(self).cur_value * 10 + key_digit(key)->Some_0) as u64,
                ..*old(self)
            }),
            key == Key::R ==> *final(self) == (RendererState {
                cur_value: 0u64,
                cur_color: Color::Red,
                ..*old(self)
            }),
            key == Key::G ==> *final(self) == (RendererState {
                cur_value: 0u64,
                cur_color: Color::Green,
                ..*old(self)
            }),
            key == Key::B ==> *final(self) == (RendererState {
                cur_value: 0u64,
                cur_color: Color::Blue,
                ..*old(self)
            }),
            key == Key::A ==> *final(self) == (RendererState {
                cur_value: 0u64,
                cur_color: Color::Alpha,
                ..*old(self)
            }),
            key == Key::Return ==> {
                &&& final(self).color == set_channel(
                    old(self).color,
                    old(self).cur_color,
                    old(self).cur_value,
                )
                &&& final(self).cur_value == 0
                &&& final(self).uniform.buffer is Some
                &&& final(self).uniform.buffer->Some_0.contents@ == rgba_bytes_spec(
                    final(self).color,
                )
                &&& final(self).uniform.desc == old(self).uniform.desc
                &&& final(self).cur_color == old(self).cur_color
                &&& final(self).bg_color == old(self).bg_color
                &&& final(self).device == old(self).device
                &&& final(self).swapchain == old(self).swapchain
                &&& final(self).render_pass == old(self).render_pass
                &&& final(self).framebuffer == old(self).framebuffer
                &&& final(self).pipeline == old(self).pipeline
                &&& final(self).vertex_buffer == old(self).vertex_buffer
                &&& final(self).image == old(self).image
                &&& final(self).img_desc_pool == old(self).img_desc_pool
                &&& final(self).uniform_desc_pool == old(self).uniform_desc_pool
                &&& final(self).viewport == old(self).viewport
                &&& final(self).recreate_swapchain == old(self).recreate_swapchain
            },
            key == Key::C ==> {
                &&& final(self).bg_color == match old(self).cur_color {
                    Color::Red => Rgba { r: old(self).cur_value, ..old(self).bg_color },
                    Color::Green => Rgba { g: old(self).cur_value, ..old(self).bg_color },
                    Color::Blue => Rgba { b: old(self).cur_value, ..old(self).bg_color },
                    Color::Alpha => Rgba {
                        r: scale_255(old(self).bg_color.r, old(self).cur_value) as u64,
                        g: scale_255(old(self).bg_color.g, old(self).cur_value) as u64,
                        b: scale_255(old(self).bg_color.b, old(self).cur_value) as u64,
                        a: old(self).cur_value,
                    },
                }
                &&& *final(self) == (RendererState {
                    bg_color: final(self).bg_color,
                    cur_value: 0u64,
                    ..*old(self)
                })
            },
    {
        match key {
            Key::Key0 => { self.cur_value = self.cur_value * 10 + 0; },
            Key::Key1 => { self.cur_value = self.cur_value * 10 + 1; },
            Key::Key2 => { self.cur_value = self.cur_value * 10 + 2; },
            Key::Key3 => { self.cur_value = self.cur_value * 10 + 3; },
            Key::Key4 => { self.cur_value = self.cur_value * 10 + 4; },
            Key::Key5 => { self.cur_value = self.cur_value * 10 + 5; },
            Key::Key6 => { self.cur_value = self.cur_value * 10 + 6; },
            Key::Key7 => { self.cur_value = self.cur_value * 10 + 7; },
            Key::Key8 => { self.cur_value = self.cur_value * 10 + 8; },
            Key::Key9 => { self.cur_value = self.cur_value * 10 + 9; },
            Key::R => {
                self.cur_value = 0;
                self.cur_color = Color::Red;
            },
            Key::G => {
                self.cur_value = 0;
                self.cur_color = Color::Green;
            },
            Key::B => {
                self.cur_value = 0;
                self.cur_color = Color::Blue;
            },
            Key::A => {
                self.cur_value = 0;
                self.cur_color = Color::Alpha;
            },
            Key::Return => {
                match self.cur_color {
                    Color::Red => { self.color.r = self.cur_value; },
                    Color::Green => { self.color.g = self.cur_value; },
                    Color::Blue => { self.color.b = self.cur_value; },
                    Color::Alpha => { self.color.a = self.cur_value; },
                }
                let bytes = rgba_bytes(self.color);
                match &mut self.uniform.buffer {
                    Some(b) => {
                        b.update_data(0, bytes.as_slice());
                        proof {
                            assert(b.contents@ =~= rgba_bytes_spec(self.color));
                        }
                    },
                    None => {},
                }
                self.cur_value = 0;
            },
            Key::C => {
                match self.cur_color {
                    Color::Red => {
                        self.bg_color.r = self.cur_value;
                    },
                    Color::Green => {
                        self.bg_color.g = self.cur_value;
                    },
                    Color::Blue => {
                        self.bg_color.b = self.cur_value;
                    },
                    Color::Alpha => {
                        let pr = (self.bg_color.r as u128) * (self.cur_value as u128);
                        let pg = (self.bg_color.g as u128) * (self.cur_value as u128);
                        let pb = (self.bg_color.b as u128) * (self.cur_value as u128);
                        self.bg_color.a = self.cur_value;
                        self.bg_color.r = (pr / 255) as u64;
                        self.bg_color.g = (pg / 255) as u64;
                        self.bg_color.b = (pb / 255) as u64;
                    },
                }
                self.cur_value = 0;
            },
        }
    }

    /// Rebuild everything the surface size touches, in order: drain
    /// the device, configure a new swapchain, replace the render pass,
    /// replace the frame slots (one per new image count), rebuild the
    /// pipeline against the new render pass, and refresh the viewport.
    /// Every old object is destroyed before its replacement is made.
    pub fn recreate_swapchain(&mut self, caps: SurfaceCapabilities, formats: &Option<Vec<Format>>)
        requires
            old(self).wf(),
            caps.wf(),
            match formats {
                Some(v) => v@.len() > 0,
                None => true,
            },
            old(self).device.next_id + 6 + 2 * caps.clamped_image_count_spec() <= u64::MAX,
        ensures
            final(self).wf(),
            recreate_rel(*old(self), caps, *formats, *final(self)),
            final(self).recreate_swapchain == old(self).recreate_swapchain,
    {
        self.device.log_op(GpuOp::WaitIdle);
        self.swapchain = SwapchainState::new(&mut self.device, caps, formats);
        self.render_pass.destroy(&mut self.device);
        self.render_pass = RenderPassState::new(&mut self.device, &self.swapchain);
        self.framebuffer.destroy(&mut self.device);
        self.framebuffer = FramebufferState::new(&mut self.device, self.swapchain.frame_queue_size);
        self.pipeline.destroy(&mut self.device);
        let mut layouts: Vec<u64> = Vec::new();
        layouts.push(self.image.get_layout());
        layouts.push(self.uniform.get_layout());
        self.pipeline = PipelineState::new(&mut self.device, layouts, self.render_pass.render_pass_id);
        self.viewport = self.swapchain.make_viewport();
        proof {
            assert(self.device.log@ =~= old(self).device.log@ + recreation_ops(*old(self), caps));
        }
    }

    /// Draw one frame.  If the swapchain was flagged invalid, first
    /// perform the full recreation, exactly once.  Then acquire a
    /// presentable image (`acquire` is what the presentation layer
    /// reported — `None` for a failed acquire, which flags the
    /// swapchain invalid and skips the frame), wrap it in a transient
    /// framebuffer, record the canonical command sequence in the slot
    /// the frame counter selects, submit it signalling the slot's
    /// present semaphore, and present waiting on that semaphore
    /// (`present_ok` is that call's outcome; failure flags the
    /// swapchain invalid for the next frame).
    pub fn draw(
        &mut self,
        caps: SurfaceCapabilities,
        formats: &Option<Vec<Format>>,
        acquire: Option<u64>,
        present_ok: bool,
    )
        requires
            old(self).wf(),
            caps.wf(),
            match formats {
                Some(v) => v@.len() > 0,
                None => true,
            },
            old(self).swapchain.frame_index < u64::MAX,
            old(self).device.next_id + 8 + 2 * caps.clamped_image_count_spec() <= u64::MAX,
        ensures
            final(self).wf(),
            !old(self).recreate_swapchain ==> frame_rel(
                *old(self),
                *final(self),
                acquire,
                present_ok,
            ),
            old(self).recreate_swapchain ==> exists|mid: RendererState|
                #[trigger] recreate_rel(*old(self), caps, *formats, mid) && frame_rel(
                    mid,
                    *final(self),
                    acquire,
                    present_ok,
                ),
    {
        if self.recreate_swapchain {
            self.recreate_swapchain(caps, formats);
            self.recreate_swapchain = false;
        }
        let ghost mid = *self;
        proof {
            if old(self).recreate_swapchain {
                assert(recreate_rel(*old(self), caps, *formats, mid));
            }
        }

        match acquire {
            None => {
                self.recreate_swapchain = true;
                proof {
                    assert(frame_rel(mid, *self, acquire, present_ok));
                    if old(self).recreate_swapchain {
                        assert(exists|m: RendererState|
                            #[trigger] recreate_rel(*old(self), caps, *formats, m) && frame_rel(
                                m,
                                *self,
                                acquire,
                                present_ok,
                            ));
                    }
                }
                return ;
            },
            Some(_) => {},
        }

        let framebuffer_id = self.device.fresh_id();
        self.device.log_op(GpuOp::CreateFramebuffer(framebuffer_id));

        let frame_idx = self.swapchain.next_frame_slot();
        let pool_id = self.framebuffer.slots[frame_idx].pool_id;
        let semaphore_id = self.framebuffer.slots[frame_idx].semaphore_id;
        self.device.log_op(GpuOp::ResetCommandPool(pool_id));

        let popped = self.framebuffer.pop_command_buffer(frame_idx);
        let cb_id = match popped {
            Some(cb) => cb.cb_id,
            None => self.device.fresh_id(),
        };

        let mut cmds: Vec<RenderCommand> = Vec::new();
        cmds.push(RenderCommand::SetViewport(self.viewport));
        cmds.push(RenderCommand::SetScissor(self.viewport));
        cmds.push(RenderCommand::BindPipeline(self.pipeline.pipeline_id));
        cmds.push(RenderCommand::BindVertexBuffer(self.vertex_buffer.get_buffer()));
        let uniform_set_id = match &self.uniform.desc {
            Some(d) => d.set_id,
            None => 0,
        };
        cmds.push(
            RenderCommand::BindDescriptorSets {
                layout: self.pipeline.pipeline_layout_id,
                image_set: self.image.desc.set_id,
                uniform_set: uniform_set_id,
            },
        );
        cmds.push(
            RenderCommand::BeginRenderPass {
                render_pass: self.render_pass.render_pass_id,
                framebuffer: framebuffer_id,
                clear: self.bg_color,
            },
        );
        cmds.push(
            RenderCommand::Draw {
                vertex_start: 0,
                vertex_end: 6,
                instance_start: 0,
                instance_end: 1,
            },
        );
        cmds.push(RenderCommand::EndRenderPass);
        cmds.push(RenderCommand::Finish);
        proof {
            assert(cmds@ =~= canonical_frame_commands(mid, framebuffer_id));
        }

        let cb = CommandBufferModel { cb_id, cmds };
        self.framebuffer.push_command_buffer(frame_idx, cb);

        self.device.log_op(GpuOp::SubmitDraw(semaphore_id));
        self.device.log_op(GpuOp::Present(semaphore_id));
        if !present_ok {
            self.recreate_swapchain = true;
        }
        self.device.log_op(GpuOp::DestroyFramebuffer(framebuffer_id));

        proof {
            assert(self.device.log@ =~= mid.device.log@ + frame_ops(
                mid.device.next_id,
                pool_id,
                semaphore_id,
            ));
            assert(frame_rel(mid, *self, acquire, present_ok));
            if old(self).recreate_swapchain {
                assert(exists|m: RendererState|
                    #[trigger] recreate_rel(*old(self), caps, *formats, m) && frame_rel(
                        m,
                        *self,
                        acquire,
                        present_ok,
                    ));
            }
        }
    }

    /// Tear the whole renderer down: drain the device, release the
    /// two descriptor pools, then every resource — and through each
    /// resource's own teardown, every paired object in reverse
    /// creation order, the image waiting on its transfer fence first.
    pub fn destroy(&mut self)
        requires
            old(self).wf(),
        ensures
            final(self).device.log@ == old(self).device.log@ + seq![
                GpuOp::WaitIdle,
                GpuOp::DestroyDescriptorPool(old(self).img_desc_pool.pool_id),
                GpuOp::DestroyDescriptorPool(old(self).uniform_desc_pool.pool_id),
                GpuOp::DestroyBuffer(old(self).vertex_buffer.buffer_id),
                GpuOp::FreeMemory(old(self).vertex_buffer.memory_id),
                GpuOp::DestroyRenderPass(old(self).render_pass.render_pass_id),
                GpuOp::DestroyBuffer(old(self).uniform.buffer->Some_0.buffer_id),
                GpuOp::FreeMemory(old(self).uniform.buffer->Some_0.memory_id),
                GpuOp::DestroyPipeline(old(self).pipeline.pipeline_id),
                GpuOp::DestroyPipelineLayout(old(self).pipeline.pipeline_layout_id),
            ] + pool_destroy_ops(old(self).framebuffer.slots@) + semaphore_destroy_ops(
                old(self).framebuffer.slots@,
            ) + image_teardown_ops(old(self).image),
            !final(self).vertex_buffer.alive,
            !final(self).render_pass.alive,
            !final(self).pipeline.alive,
            !final(self).framebuffer.alive,
            !final(self).image.alive,
            final(self).image.fence_waited,
    {
        self.device.log_op(GpuOp::WaitIdle);
        destroy_descriptor_pool(&mut self.device, &self.img_desc_pool);
        destroy_descriptor_pool(&mut self.device, &self.uniform_desc_pool);
        self.vertex_buffer.destroy(&mut self.device);
        self.render_pass.destroy(&mut self.device);
        match &mut self.uniform.buffer {
            Some(b) => {
                b.destroy(&mut self.device);
            },
            None => {},
        }
        self.pipeline.destroy(&mut self.device);
        self.framebuffer.destroy(&mut self.device);
        self.image.destroy(&mut self.device);
        proof {
            assert(self.device.log@ =~= old(self).device.log@ + seq![
                GpuOp::WaitIdle,
                GpuOp::DestroyDescriptorPool(old(self).img_desc_pool.pool_id),
                GpuOp::DestroyDescriptorPool(old(self).uniform_desc_pool.pool_id),
                GpuOp::DestroyBuffer(old(self).vertex_buffer.buffer_id),
                GpuOp::FreeMemory(old(self).vertex_buffer.memory_id),
                GpuOp::DestroyRenderPass(old(self).render_pass.render_pass_id),
                GpuOp::DestroyBuffer(old(self).uniform.buffer->Some_0.buffer_id),
                GpuOp::FreeMemory(old(self).uniform.buffer->Some_0.memory_id),
                GpuOp::DestroyPipeline(old(self).pipeline.pipeline_id),
                GpuOp::DestroyPipelineLayout(old(self).pipeline.pipeline_layout_id),
            ] + pool_destroy_ops(old(self).framebuffer.slots@) + semaphore_destroy_ops(
                old(self).framebuffer.slots@,
            ) + image_teardown_ops(old(self).image));
        }
    }
}

/// A recreation leaks nothing: its driver-call sequence destroys the
/// previous render pass, the previous pipeline and its layout, and
/// every previous frame slot's command pool and present semaphore.
pub proof fn lemma_recreation_destroys_previous(pre: RendererState, caps: SurfaceCapabilities)
    ensures
        recreation_ops(pre, caps).contains(
            GpuOp::DestroyRenderPass(pre.render_pass.render_pass_id),
        ),
        recreation_ops(pre, caps).contains(GpuOp::DestroyPipeline(pre.pipeline.pipeline_id)),
        recreation_ops(pre, caps).contains(
            GpuOp::DestroyPipelineLayout(pre.pipeline.pipeline_layout_id),
        ),
        forall|i: int|
            0 <= i < pre.framebuffer.slots@.len() ==> recreation_ops(pre, caps).contains(
                GpuOp::DestroyCommandPool((#[trigger] pre.framebuffer.slots@[i]).pool_id),
            ),
        forall|i: int|
            0 <= i < pre.framebuffer.slots@.len() ==> recreation_ops(pre, caps).contains(
                GpuOp::DestroySemaphore((#[trigger] pre.framebuffer.slots@[i]).semaphore_id),
            ),
{
    let ops = recreation_ops(pre, caps);
    let ls = pre.framebuffer.slots@.len() as int;
    let k2 = caps.clamped_image_count_spec() as int;
    assert(ops[2] == GpuOp::DestroyRenderPass(pre.render_pass.render_pass_id));
    assert(ops[4 + 2 * ls + 2 * k2] == GpuOp::DestroyPipeline(pre.pipeline.pipeline_id));
    assert(ops[5 + 2 * ls + 2 * k2] == GpuOp::DestroyPipelineLayout(
        pre.pipeline.pipeline_layout_id,
    ));
    assert forall|i: int|
        0 <= i < pre.framebuffer.slots@.len() implies ops.contains(
        GpuOp::DestroyCommandPool((#[trigger] pre.framebuffer.slots@[i]).pool_id),
    ) by {
        assert(ops[4 + i] == GpuOp::DestroyCommandPool(pre.framebuffer.slots@[i].pool_id));
    }
    assert forall|i: int|
        0 <= i < pre.framebuffer.slots@.len() implies ops.contains(
        GpuOp::DestroySemaphore((#[trigger] pre.framebuffer.slots@[i]).semaphore_id),
    ) by {
        assert(ops[4 + ls + i] == GpuOp::DestroySemaphore(pre.framebuffer.slots@[i].semaphore_id));
    }
}

} // verus!
