//! Memory-backed GPU buffers and the per-frame command-pool slots.
//!
//! `BufferState` models one device-memory allocation together with the
//! buffer object bound to it.  Its contents mirror what the engine
//! wrote through the mapped range, so a contract can say exactly which
//! bytes a creation or an update leaves in the allocation.  The
//! row-pitch-aligned staging layout used for image uploads lives here
//! too, as `new_texture`.

use vstd::prelude::*;

use crate::device::{
    is_power_of_two, memory_type_matches, upload_properties, select_memory_type, DeviceState,
    GpuOp, MemoryProperties,
};
use crate::render::RenderCommand;

verus! {

/// The row pitch of a staging buffer for an image of width `width`
/// (four bytes per texel), rounded up to `alignment`:
/// `(width * 4 + alignment - 1) & !(alignment - 1)`.
pub open spec fn row_pitch_spec(width: u32, alignment: u32) -> u32
    recommends
        alignment >= 1,
{
    ((4 * width + alignment - 1) as u32) & !((alignment - 1) as u32)
}

/// For a power-of-two alignment, the row pitch is the least multiple
/// of the alignment that holds a tightly packed row of `4 * width`
/// bytes.
pub proof fn lemma_row_pitch_aligned(width: u32, alignment: u32)
    requires
        is_power_of_two(alignment),
        4 * width + alignment <= u32::MAX,
    ensures
        row_pitch_spec(width, alignment) % alignment == 0,
        4 * width <= row_pitch_spec(width, alignment),
        row_pitch_spec(width, alignment) < 4 * width + alignment,
{
    assert(row_pitch_spec(width, alignment) % alignment == 0 && 4 * width <= row_pitch_spec(
        width,
        alignment,
    ) && row_pitch_spec(width, alignment) < 4 * width + alignment) by (bit_vector)
        requires
            alignment != 0,
            alignment & (alignment - 1) as u32 == 0,
            4 * width + alignment <= u32::MAX,
    ;
}

/// A width and height pair.
#[derive(Clone, Copy, PartialEq, Eq, Structural, Debug)]
pub struct Dimensions<T> {
    pub width: T,
    pub height: T,
}

/// What a buffer is for; passed through to the driver at creation.
#[derive(Clone, Copy, PartialEq, Eq, Structural, Debug)]
pub enum BufferUsage {
    Vertex,
    Uniform,
    TransferSrc,
}

/// The error a bounds-checked buffer update reports.
#[derive(Clone, Copy, PartialEq, Eq, Structural, Debug)]
pub enum BufferError {
    /// The update would run past the allocated size.
    OutOfBounds,
}

/// Index of column `c` in row `y` of a row-major layout whose rows
/// start `p` bytes apart.
pub open spec fn row_major(y: int, p: int, c: int) -> int {
    y * p + c
}

/// A cell in a row before `y` lies strictly below row `y`'s start.
pub proof fn lemma_row_major_in_prefix(r: int, y: int, p: int, c: int)
    by (nonlinear_arith)
    requires
        0 <= r < y,
        0 <= c < p,
    ensures
        0 <= row_major(r, p, c),
        row_major(r, p, c) < y * p,
{
}

/// `orig` with the range starting at `offset` replaced by `data`.
pub open spec fn splice_bytes(orig: Seq<u8>, offset: int, data: Seq<u8>) -> Seq<u8>
    recommends
        0 <= offset,
        offset + data.len() <= orig.len(),
{
    orig.take(offset) + data + orig.skip(offset + data.len())
}

/// Does the device offer a host-visible, coherent memory type for
/// buffers?  If not, the engine cannot upload at all — a fatal
/// configuration error.
pub open spec fn upload_type_exists(d: DeviceState) -> bool {
    exists|j: int|
        0 <= j < d.memory_types@.len() && memory_type_matches(
            d.memory_types@,
            d.buffer_type_mask,
            MemoryProperties { cpu_visible: true, coherent: true, device_local: false },
            j,
        )
}

/// One GPU buffer with its backing memory.  The two handles are
/// created together and released together, buffer first.
pub struct BufferState {
    /// Id of the buffer object in the device log.
    pub buffer_id: u64,
    /// Id of the backing memory allocation in the device log.
    pub memory_id: u64,
    /// Allocated size in bytes.  The model takes the device's
    /// reported memory requirement to be exactly the requested size.
    pub size: u64,
    /// What the buffer is for.
    pub usage: BufferUsage,
    /// The index of the memory type the allocation came from.
    pub memory_type: usize,
    /// The bytes the engine has written through the mapped range.
    pub contents: Vec<u8>,
    /// Both handles are still live; destruction clears this.
    pub alive: bool,
}

impl BufferState {
    /// A live buffer's modelled contents cover the whole allocation.
    pub open spec fn wf(&self) -> bool {
        self.alive ==> self.contents@.len() == self.size
    }

    /// Create a buffer, pick the first host-visible coherent memory
    /// type, allocate, bind, and copy `data` through the mapped range.
    pub fn new(device: &mut DeviceState, data: &[u8], usage: BufferUsage) -> (r: BufferState)
        requires
            old(device).wf(),
            old(device).next_id + 2 <= u64::MAX,
            upload_type_exists(*old(device)),
        ensures
            r.wf(),
            r.alive,
            r.usage == usage,
            r.size == data@.len(),
            r.contents@ == data@,
            r.buffer_id == old(device).next_id,
            r.memory_id == old(device).next_id + 1,
            r.memory_type < old(device).memory_types@.len(),
            memory_type_matches(
                old(device).memory_types@,
                old(device).buffer_type_mask,
                MemoryProperties { cpu_visible: true, coherent: true, device_local: false },
                r.memory_type as int,
            ),
            forall|j: int|
                0 <= j < r.memory_type ==> !memory_type_matches(
                    old(device).memory_types@,
                    old(device).buffer_type_mask,
                    MemoryProperties { cpu_visible: true, coherent: true, device_local: false },
                    j,
                ),
            final(device).log@ == old(device).log@ + seq![
                GpuOp::CreateBuffer(r.buffer_id),
                GpuOp::AllocateMemory(r.memory_id),
            ],
            final(device).wf(),
            final(device).memory_types == old(device).memory_types,
            final(device).limits == old(device).limits,
            final(device).buffer_type_mask == old(device).buffer_type_mask,
            final(device).image_type_mask == old(device).image_type_mask,
            final(device).next_id == old(device).next_id + 2,
    {
        let buffer_id = device.fresh_id();
        device.log_op(GpuOp::CreateBuffer(buffer_id));

        let upload_type = select_memory_type(
            &device.memory_types,
            device.buffer_type_mask,
            upload_properties(),
        );
        let memory_type = match upload_type {
            Some(i) => i,
            None => {
                proof {
                    assert(false);
                }
                0
            },
        };

        let memory_id = device.fresh_id();
        device.log_op(GpuOp::AllocateMemory(memory_id));

        let mut contents: Vec<u8> = Vec::new();
        let mut i: usize = 0;
        while i < data.len()
            invariant
                i <= data@.len(),
                contents@ == data@.take(i as int),
            decreases data@.len() - i,
        {
            contents.push(data[i]);
            i = i + 1;
        }
        proof {
            assert(contents@ =~= data@);
        }

        BufferState {
            buffer_id,
            memory_id,
            size: data.len() as u64,
            usage,
            memory_type,
            contents,
            alive: true,
        }
    }

    /// The buffer handle, for binding into commands.  The buffer must
    /// still be live.
    pub fn get_buffer(&self) -> (r: u64)
        requires
            self.alive,
        ensures
            r == self.buffer_id,
    {
        self.buffer_id
    }

    /// Map the affected range and copy `data` into it at `offset`.
    /// The caller owes `offset + data.len() <= size`; `update_checked`
    /// is the bounds-checked entry.
    pub fn update_data(&mut self, offset: u64, data: &[u8])
        requires
            old(self).wf(),
            old(self).alive,
            offset + data@.len() <= old(self).size,
        ensures
            final(self).wf(),
            final(self).contents@ == splice_bytes(old(self).contents@, offset as int, data@),
            final(self).buffer_id == old(self).buffer_id,
            final(self).memory_id == old(self).memory_id,
            final(self).size == old(self).size,
            final(self).usage == old(self).usage,
            final(self).memory_type == old(self).memory_type,
            final(self).alive,
    {
        let n = self.contents.len();
        proof {
            assert(offset <= n);
        }
        let off = offset as usize;
        let mut i: usize = 0;
        while i < data.len()
            invariant
                old(self).wf(),
                old(self).alive,
                off == offset,
                off + data@.len() <= self.contents@.len() <= usize::MAX,
                offset + data@.len() <= old(self).size,
                i <= data@.len(),
                self.buffer_id == old(self).buffer_id,
                self.memory_id == old(self).memory_id,
                self.size == old(self).size,
                self.usage == old(self).usage,
                self.memory_type == old(self).memory_type,
                self.alive == old(self).alive,
                self.contents@.len() == old(self).contents@.len(),
                forall|k: int|
                    0 <= k < self.contents@.len() && !(off <= k < off + i) ==> self.contents@[k]
                        == old(self).contents@[k],
                forall|k: int| 0 <= k < i ==> self.contents@[off + k] == data@[k],
            decreases data@.len() - i,
        {
            let b = data[i];
            self.contents[off + i] = b;
            i = i + 1;
        }
        proof {
            assert(self.contents@ =~= splice_bytes(old(self).contents@, offset as int, data@));
        }
    }

    /// The bounds-checked update: rejects any `offset`/`data` pair
    /// that would run past the allocated size, and otherwise performs
    /// `update_data`.  Rejection leaves the buffer untouched — bytes
    /// are never silently truncated.
    pub fn update_checked(&mut self, offset: u64, data: &[u8]) -> (r: Result<(), BufferError>)
        requires
            old(self).wf(),
            old(self).alive,
        ensures
            final(self).wf(),
            r is Ok <==> offset + data@.len() <= old(self).size,
            r is Ok ==> final(self).contents@ == splice_bytes(
                old(self).contents@,
                offset as int,
                data@,
            ),
            r is Err ==> *final(self) == *old(self),
            final(self).buffer_id == old(self).buffer_id,
            final(self).memory_id == old(self).memory_id,
            final(self).size == old(self).size,
            final(self).usage == old(self).usage,
            final(self).memory_type == old(self).memory_type,
            final(self).alive,
    {
        let end = offset.checked_add(data.len() as u64);
        match end {
            Some(end) => {
                if end <= self.size {
                    self.update_data(offset, data);
                    Ok(())
                } else {
                    Err(BufferError::OutOfBounds)
                }
            },
            None => Err(BufferError::OutOfBounds),
        }
    }

    /// Create a row-pitch-aligned staging buffer for an image upload.
    /// Source rows are tightly packed at `4 * width` bytes; each is
    /// copied to a destination row start aligned to the adapter's
    /// buffer-copy pitch alignment, with the padding left zeroed.
    /// Returns the buffer, the image dimensions, the row pitch, and
    /// the texel stride in bytes.
    pub fn new_texture(
        device: &mut DeviceState,
        img: &[u8],
        width: u32,
        height: u32,
        usage: BufferUsage,
    ) -> (r: (BufferState, Dimensions<u32>, u32, usize))
        requires
            old(device).wf(),
            old(device).next_id + 2 <= u64::MAX,
            upload_type_exists(*old(device)),
            img@.len() == 4 * width * height,
            4 * width + old(device).limits.optimal_buffer_copy_pitch_alignment <= u32::MAX,
            height * row_pitch_spec(width, old(device).limits.optimal_buffer_copy_pitch_alignment)
                <= usize::MAX,
        ensures
            r.2 == row_pitch_spec(width, old(device).limits.optimal_buffer_copy_pitch_alignment),
            r.3 == 4usize,
            r.1 == (Dimensions { width, height }),
            r.0.wf(),
            r.0.alive,
            r.0.usage == usage,
            r.0.size == height * r.2,
            r.0.contents@.len() == height * r.2,
            forall|y: int, c: int|
                0 <= y < height && 0 <= c < 4 * width ==> r.0.contents@[#[trigger] row_major(
                    y,
                    r.2 as int,
                    c,
                )] == img@[row_major(y, 4 * width, c)],
            forall|y: int, c: int|
                0 <= y < height && 4 * width <= c < r.2 ==> r.0.contents@[#[trigger] row_major(
                    y,
                    r.2 as int,
                    c,
                )] == 0,
            r.0.buffer_id == old(device).next_id,
            r.0.memory_id == old(device).next_id + 1,
            r.0.memory_type < old(device).memory_types@.len(),
            memory_type_matches(
                old(device).memory_types@,
                old(device).buffer_type_mask,
                MemoryProperties { cpu_visible: true, coherent: true, device_local: false },
                r.0.memory_type as int,
            ),
            forall|j: int|
                0 <= j < r.0.memory_type ==> !memory_type_matches(
                    old(device).memory_types@,
                    old(device).buffer_type_mask,
                    MemoryProperties { cpu_visible: true, coherent: true, device_local: false },
                    j,
                ),
            final(device).log@ == old(device).log@ + seq![
                GpuOp::CreateBuffer(r.0.buffer_id),
                GpuOp::AllocateMemory(r.0.memory_id),
            ],
            final(device).wf(),
            final(device).memory_types == old(device).memory_types,
            final(device).limits == old(device).limits,
            final(device).buffer_type_mask == old(device).buffer_type_mask,
            final(device).image_type_mask == old(device).image_type_mask,
            final(device).next_id == old(device).next_id + 2,
    {
        let alignment = device.limits.optimal_buffer_copy_pitch_alignment;
        let mask = alignment - 1;
        let row_bytes = 4 * width;
        let row_pitch = (row_bytes + mask) & !mask;
        proof {
            lemma_row_pitch_aligned(width, alignment);
            assert(row_pitch == row_pitch_spec(width, alignment));
        }

        let buffer_id = device.fresh_id();
        device.log_op(GpuOp::CreateBuffer(buffer_id));
        let upload_type = select_memory_type(
            &device.memory_types,
            device.buffer_type_mask,
            upload_properties(),
        );
        let memory_type = match upload_type {
            Some(i) => i,
            None => {
                proof {
                    assert(false);
                }
                0
            },
        };
        let memory_id = device.fresh_id();
        device.log_op(GpuOp::AllocateMemory(memory_id));

        proof {
            assert((height as int) * (row_pitch as int) < 0x1_0000_0000_0000_0000)
                by (nonlinear_arith)
                requires
                    (height as int) < 0x1_0000_0000,
                    (row_pitch as int) < 0x1_0000_0000,
                    0 <= (height as int),
                    0 <= (row_pitch as int),
            ;
        }
        let upload_size: u64 = (height as u64) * (row_pitch as u64);
        let us = upload_size as usize;

        let mut contents: Vec<u8> = Vec::new();
        let mut j: usize = 0;
        while j < us
            invariant
                j <= us,
                contents@.len() == j,
                forall|k: int| 0 <= k < j ==> contents@[k] == 0,
            decreases us - j,
        {
            contents.push(0u8);
            j = j + 1;
        }

        // Pins the source slice's length within the address space.
        let _img_len = img.len();
        proof {
            assert((height as int) * (4 * (width as int)) == 4 * width * height)
                by (nonlinear_arith);
        }
        let rb = row_bytes as usize;
        let rp = row_pitch as usize;
        let h = height as usize;
        let mut y: usize = 0;
        let mut dst_base: usize = 0;
        let mut src_base: usize = 0;
        while y < h
            invariant
                h == height,
                rb == row_bytes == 4 * width,
                rp == row_pitch == row_pitch_spec(
                    width,
                    old(device).limits.optimal_buffer_copy_pitch_alignment,
                ),
                rb <= rp,
                y <= h,
                dst_base == y * rp,
                src_base == y * rb,
                contents@.len() == h * rp <= usize::MAX,
                img@.len() == (h as int) * (rb as int) <= usize::MAX,
                forall|r2: int, c: int|
                    0 <= r2 < y && 0 <= c < rb ==> contents@[#[trigger] row_major(r2, rp as int, c)]
                        == img@[row_major(r2, rb as int, c)],
                forall|r2: int, c: int|
                    0 <= r2 < y && rb <= c < rp ==> contents@[#[trigger] row_major(
                        r2,
                        rp as int,
                        c,
                    )] == 0,
                forall|k: int| dst_base <= k < contents@.len() ==> contents@[k] == 0,
            decreases h - y,
        {
            proof {
                assert((y + 1) * (rp as int) <= (h as int) * (rp as int) && (y + 1) * (rb as int)
                    <= (h as int) * (rb as int) && y * (rp as int) + rp == (y + 1) * (rp as int)
                    && y * (rb as int) + rb == (y + 1) * (rb as int)) by (nonlinear_arith)
                    requires
                        0 <= (y as int),
                        (y as int) + 1 <= (h as int),
                        0 <= (rp as int),
                        0 <= (rb as int),
                ;
            }
            let mut x: usize = 0;
            while x < rb
                invariant
                    h == height,
                    rb == row_bytes == 4 * width,
                    rp == row_pitch,
                    rb <= rp,
                    y < h,
                    x <= rb,
                    dst_base == y * rp,
                    src_base == y * rb,
                    dst_base + rp <= contents@.len(),
                    src_base + rb <= img@.len(),
                    contents@.len() == h * rp <= usize::MAX,
                    img@.len() == (h as int) * (rb as int) <= usize::MAX,
                    forall|r2: int, c: int|
                        0 <= r2 < y && 0 <= c < rb ==> contents@[#[trigger] row_major(
                            r2,
                            rp as int,
                            c,
                        )] == img@[row_major(r2, rb as int, c)],
                    forall|r2: int, c: int|
                        0 <= r2 < y && rb <= c < rp ==> contents@[#[trigger] row_major(
                            r2,
                            rp as int,
                            c,
                        )] == 0,
                    forall|c: int|
                        0 <= c < x ==> contents@[#[trigger] row_major(y as int, rp as int, c)]
                            == img@[row_major(y as int, rb as int, c)],
                    forall|k: int|
                        dst_base + x <= k < contents@.len() ==> contents@[k] == 0,
                decreases rb - x,
            {
                let b = img[src_base + x];
                contents[dst_base + x] = b;
                proof {
                    assert forall|r2: int, c: int|
                        0 <= r2 < y && 0 <= c < rb implies contents@[#[trigger] row_major(
                        r2,
                        rp as int,
                        c,
                    )] == img@[row_major(r2, rb as int, c)] by {
                        lemma_row_major_in_prefix(r2, y as int, rp as int, c);
                        lemma_row_major_in_prefix(r2, y as int, rb as int, c);
                    }
                    assert forall|r2: int, c: int|
                        0 <= r2 < y && rb <= c < rp implies contents@[#[trigger] row_major(
                        r2,
                        rp as int,
                        c,
                    )] == 0 by {
                        lemma_row_major_in_prefix(r2, y as int, rp as int, c);
                    }
                }
                x = x + 1;
            }
            y = y + 1;
            dst_base = dst_base + rp;
            src_base = src_base + rb;
        }

        let staged = BufferState {
            buffer_id,
            memory_id,
            size: upload_size,
            usage,
            memory_type,
            contents,
            alive: true,
        };
        (staged, Dimensions { width, height }, row_pitch, 4usize)
    }

    /// Release the buffer handle, then the memory, in that order.
    /// A second call is a no-op.
    pub fn destroy(&mut self, device: &mut DeviceState)
        ensures
            !final(self).alive,
            final(self).wf(),
            old(self).alive ==> final(device).log@ == old(device).log@ + seq![
                GpuOp::DestroyBuffer(old(self).buffer_id),
                GpuOp::FreeMemory(old(self).memory_id),
            ],
            !old(self).alive ==> *final(device) == *old(device) && *final(self) == *old(self),
            final(self).buffer_id == old(self).buffer_id,
            final(self).memory_id == old(self).memory_id,
            final(self).size == old(self).size,
            final(device).wf() == old(device).wf(),
            final(device).memory_types == old(device).memory_types,
            final(device).limits == old(device).limits,
            final(device).buffer_type_mask == old(device).buffer_type_mask,
            final(device).image_type_mask == old(device).image_type_mask,
            final(device).next_id == old(device).next_id,
    {
        if self.alive {
            device.log_op(GpuOp::DestroyBuffer(self.buffer_id));
            device.log_op(GpuOp::FreeMemory(self.memory_id));
            self.alive = false;
            proof {
                assert(device.log@ =~= old(device).log@ + seq![
                    GpuOp::DestroyBuffer(old(self).buffer_id),
                    GpuOp::FreeMemory(old(self).memory_id),
                ]);
            }
        }
    }
}

/// One reusable command buffer and what was last recorded into it.
pub struct CommandBufferModel {
    /// Id of the command-buffer object.
    pub cb_id: u64,
    /// The commands recorded in it, in order.
    pub cmds: Vec<RenderCommand>,
}

/// The per-frame objects of one swapchain-image slot: a command pool,
/// the pool's reusable command buffers, and the slot's present
/// semaphore.
pub struct FrameSlot {
    /// Id of the slot's command pool.
    pub pool_id: u64,
    /// Command buffers allocated from the pool, available for reuse.
    pub command_buffers: Vec<CommandBufferModel>,
    /// Id of the slot's present semaphore.
    pub semaphore_id: u64,
}

/// The log extension that creating `k` frame slots leaves behind: a
/// command pool and a present semaphore per slot, in slot order, with
/// ids counted up from `base`.
pub open spec fn frame_setup_ops(base: u64, k: int) -> Seq<GpuOp> {
    Seq::new(
        (2 * k) as nat,
        |i: int|
            if i % 2 == 0 {
                GpuOp::CreateCommandPool((base + i) as u64)
            } else {
                GpuOp::CreateSemaphore((base + i) as u64)
            },
    )
}

/// The pool-destruction half of the teardown: every slot's command
/// pool, in slot order.
pub open spec fn pool_destroy_ops(slots: Seq<FrameSlot>) -> Seq<GpuOp> {
    Seq::new(slots.len(), |i: int| GpuOp::DestroyCommandPool(slots[i].pool_id))
}

/// The semaphore-destruction half of the teardown: every slot's
/// present semaphore, in slot order, after all the pools.
pub open spec fn semaphore_destroy_ops(slots: Seq<FrameSlot>) -> Seq<GpuOp> {
    Seq::new(slots.len(), |i: int| GpuOp::DestroySemaphore(slots[i].semaphore_id))
}

/// One frame slot per presentable image: command pools, reusable
/// command buffers, and present semaphores.
pub struct FramebufferState {
    /// One slot per swapchain image.
    pub slots: Vec<FrameSlot>,
    /// The slots' objects are still live; destruction clears this.
    pub alive: bool,
}

impl FramebufferState {
    /// Create one command pool and one present semaphore per frame
    /// slot, with empty command-buffer caches.
    pub fn new(device: &mut DeviceState, num_frames: u32) -> (r: FramebufferState)
        requires
            old(device).next_id + 2 * num_frames <= u64::MAX,
        ensures
            r.alive,
            r.slots@.len() == num_frames,
            forall|i: int|
                0 <= i < num_frames ==> {
                    &&& (#[trigger] r.slots@[i]).pool_id == old(device).next_id + 2 * i
                    &&& r.slots@[i].semaphore_id == old(device).next_id + 2 * i + 1
                    &&& r.slots@[i].command_buffers@.len() == 0
                },
            final(device).log@ == old(device).log@ + frame_setup_ops(
                old(device).next_id,
                num_frames as int,
            ),
            final(device).next_id == old(device).next_id + 2 * num_frames,
            final(device).wf() == old(device).wf(),
            final(device).memory_types == old(device).memory_types,
            final(device).limits == old(device).limits,
            final(device).buffer_type_mask == old(device).buffer_type_mask,
            final(device).image_type_mask == old(device).image_type_mask,
    {
        let mut slots: Vec<FrameSlot> = Vec::new();
        let mut i: u32 = 0;
        while i < num_frames
            invariant
                i <= num_frames,
                old(device).next_id + 2 * num_frames <= u64::MAX,
                slots@.len() == i,
                forall|j: int|
                    0 <= j < i ==> {
                        &&& (#[trigger] slots@[j]).pool_id == old(device).next_id + 2 * j
                        &&& slots@[j].semaphore_id == old(device).next_id + 2 * j + 1
                        &&& slots@[j].command_buffers@.len() == 0
                    },
                device.log@ == old(device).log@ + frame_setup_ops(old(device).next_id, i as int),
                device.next_id == old(device).next_id + 2 * i,
                device.wf() == old(device).wf(),
                device.memory_types == old(device).memory_types,
                device.limits == old(device).limits,
                device.buffer_type_mask == old(device).buffer_type_mask,
                device.image_type_mask == old(device).image_type_mask,
            decreases num_frames - i,
        {
            let pool_id = device.fresh_id();
            device.log_op(GpuOp::CreateCommandPool(pool_id));
            let semaphore_id = device.fresh_id();
            device.log_op(GpuOp::CreateSemaphore(semaphore_id));
            let slot = FrameSlot { pool_id, command_buffers: Vec::new(), semaphore_id };
            slots.push(slot);
            proof {
                assert(frame_setup_ops(old(device).next_id, i + 1) =~= frame_setup_ops(
                    old(device).next_id,
                    i as int,
                ).push(GpuOp::CreateCommandPool(pool_id)).push(GpuOp::CreateSemaphore(semaphore_id)));
                assert(device.log@ =~= old(device).log@ + frame_setup_ops(
                    old(device).next_id,
                    i + 1,
                ));
            }
            i = i + 1;
        }
        FramebufferState { slots, alive: true }
    }

    /// The slot's command pool, command-buffer cache, and present
    /// semaphore, for recording one frame.
    pub fn get_frame_data(&mut self, index: usize) -> (slot: &mut FrameSlot)
        requires
            index < old(self).slots@.len(),
        ensures
            *slot == old(self).slots@[index as int],
            final(self).slots@ == old(self).slots@.update(index as int, *final(slot)),
            final(self).alive == old(self).alive,
    {
        &mut self.slots[index]
    }


    /// Take the slot's most recently pooled command buffer, if any.
    pub fn pop_command_buffer(&mut self, index: usize) -> (r: Option<CommandBufferModel>)
        requires
            index < old(self).slots@.len(),
        ensures
            final(self).alive == old(self).alive,
            final(self).slots@.len() == old(self).slots@.len(),
            forall|j: int|
                0 <= j < old(self).slots@.len() && j != index ==> final(self).slots@[j] == old(
                    self,
                ).slots@[j],
            final(self).slots@[index as int].pool_id == old(self).slots@[index as int].pool_id,
            final(self).slots@[index as int].semaphore_id == old(self).slots@[
                index as int
            ].semaphore_id,
            ({
                let pre = old(self).slots@[index as int].command_buffers@;
                let post = final(self).slots@[index as int].command_buffers@;
                if pre.len() > 0 {
                    r == Some(pre[pre.len() - 1]) && post == pre.subrange(0, pre.len() - 1)
                } else {
                    r is None && post == pre
                }
            }),
    {
        let slot = &mut self.slots[index];
        slot.command_buffers.pop()
    }

    /// Return a recorded command buffer to the slot's reuse pool.
    pub fn push_command_buffer(&mut self, index: usize, cb: CommandBufferModel)
        requires
            index < old(self).slots@.len(),
        ensures
            final(self).alive == old(self).alive,
            final(self).slots@.len() == old(self).slots@.len(),
            forall|j: int|
                0 <= j < old(self).slots@.len() && j != index ==> final(self).slots@[j] == old(
                    self,
                ).slots@[j],
            final(self).slots@[index as int].pool_id == old(self).slots@[index as int].pool_id,
            final(self).slots@[index as int].semaphore_id == old(self).slots@[
                index as int
            ].semaphore_id,
            final(self).slots@[index as int].command_buffers@ == old(self).slots@[
                index as int
            ].command_buffers@.push(cb),
    {
        let slot = &mut self.slots[index];
        slot.command_buffers.push(cb);
    }

    /// Release every slot: all command pools first (freeing their
    /// command buffers), then all present semaphores.  A second call
    /// is a no-op.
    pub fn destroy(&mut self, device: &mut DeviceState)
        ensures
            !final(self).alive,
            final(self).slots == old(self).slots,
            old(self).alive ==> final(device).log@ == old(device).log@ + pool_destroy_ops(
                old(self).slots@,
            ) + semaphore_destroy_ops(old(self).slots@),
            !old(self).alive ==> *final(device) == *old(device),
            final(device).next_id == old(device).next_id,
            final(device).wf() == old(device).wf(),
            final(device).memory_types == old(device).memory_types,
            final(device).limits == old(device).limits,
            final(device).buffer_type_mask == old(device).buffer_type_mask,
            final(device).image_type_mask == old(device).image_type_mask,
    {
        if !self.alive {
            return ;
        }
        let n = self.slots.len();
        let mut i: usize = 0;
        while i < n
            invariant
                n == self.slots@.len(),
                i <= n,
                *self == *old(self),
                old(self).alive,
                device.log@ == old(device).log@ + pool_destroy_ops(self.slots@.take(i as int)),
                device.next_id == old(device).next_id,
                device.wf() == old(device).wf(),
                device.memory_types == old(device).memory_types,
                device.limits == old(device).limits,
                device.buffer_type_mask == old(device).buffer_type_mask,
                device.image_type_mask == old(device).image_type_mask,
            decreases n - i,
        {
            let pool_id = self.slots[i].pool_id;
            device.log_op(GpuOp::DestroyCommandPool(pool_id));
            proof {
                assert(pool_destroy_ops(self.slots@.take(i + 1 as int)) =~= pool_destroy_ops(
                    self.slots@.take(i as int),
                ).push(GpuOp::DestroyCommandPool(self.slots@[i as int].pool_id)));
            }
            i = i + 1;
        }
        proof {
            assert(self.slots@.take(n as int) =~= self.slots@);
        }
        let mut k: usize = 0;
        while k < n
            invariant
                n == self.slots@.len(),
                k <= n,
                *self == *old(self),
                old(self).alive,
                device.log@ == old(device).log@ + pool_destroy_ops(self.slots@)
                    + semaphore_destroy_ops(self.slots@.take(k as int)),
                device.next_id == old(device).next_id,
                device.wf() == old(device).wf(),
                device.memory_types == old(device).memory_types,
                device.limits == old(device).limits,
                device.buffer_type_mask == old(device).buffer_type_mask,
                device.image_type_mask == old(device).image_type_mask,
            decreases n - k,
        {
            let semaphore_id = self.slots[k].semaphore_id;
            device.log_op(GpuOp::DestroySemaphore(semaphore_id));
            proof {
                assert(semaphore_destroy_ops(self.slots@.take(k + 1 as int))
                    =~= semaphore_destroy_ops(self.slots@.take(k as int)).push(
                    GpuOp::DestroySemaphore(self.slots@[k as int].semaphore_id),
                ));
                assert(device.log@ =~= old(device).log@ + pool_destroy_ops(self.slots@)
                    + semaphore_destroy_ops(self.slots@.take(k + 1 as int)));
            }
            k = k + 1;
        }
        proof {
            assert(self.slots@.take(n as int) =~= self.slots@);
        }
        self.alive = false;
    }
}

} // verus!
