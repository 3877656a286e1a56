//! The logical device and its adapter-reported data.
//!
//! `DeviceState` models the one logical device every GPU resource is
//! created from: the adapter's memory-type table, its limits, and an
//! ordered log of the driver calls issued against the device.  The log
//! is the ground truth for the teardown-ordering contracts: a resource
//! that promises to release its objects in a given order promises an
//! exact extension of this log.

use vstd::prelude::*;

verus! {

/// Properties of one adapter-reported memory type.
#[derive(Clone, Copy, PartialEq, Eq, Structural, Debug)]
pub struct MemoryProperties {
    /// The CPU can map this memory.
    pub cpu_visible: bool,
    /// Mapped writes become visible to the GPU without explicit flushes.
    pub coherent: bool,
    /// The memory lives on the GPU itself.
    pub device_local: bool,
}

/// One entry of the adapter's memory-type table.
#[derive(Clone, Copy, PartialEq, Eq, Structural, Debug)]
pub struct MemoryType {
    pub properties: MemoryProperties,
}

/// The adapter limits the engine reads.
#[derive(Clone, Copy, PartialEq, Eq, Structural, Debug)]
pub struct Limits {
    /// Required alignment, in bytes, of each row start in a
    /// buffer-to-image copy.  Always a power of two.
    pub optimal_buffer_copy_pitch_alignment: u32,
}

/// One driver call issued against the logical device.  Each resource
/// object carries the id it was created under, so the log records which
/// object every call touched.
#[derive(Clone, Copy, PartialEq, Eq, Structural, Debug)]
pub enum GpuOp {
    WaitIdle,
    CreateBuffer(u64),
    DestroyBuffer(u64),
    AllocateMemory(u64),
    FreeMemory(u64),
    CreateImage(u64),
    DestroyImage(u64),
    CreateImageView(u64),
    DestroyImageView(u64),
    CreateSampler(u64),
    DestroySampler(u64),
    CreateFence(u64),
    WaitFence(u64),
    DestroyFence(u64),
    CreateSemaphore(u64),
    DestroySemaphore(u64),
    CreateCommandPool(u64),
    ResetCommandPool(u64),
    DestroyCommandPool(u64),
    CreateDescriptorPool(u64),
    DestroyDescriptorPool(u64),
    CreateDescriptorSetLayout(u64),
    DestroyDescriptorSetLayout(u64),
    AllocateDescriptorSet(u64),
    WriteDescriptorSet(u64),
    ConfigureSwapchain(u64),
    CreateRenderPass(u64),
    DestroyRenderPass(u64),
    CreateShaderModule(u64),
    DestroyShaderModule(u64),
    CreatePipelineLayout(u64),
    DestroyPipelineLayout(u64),
    CreatePipeline(u64),
    DestroyPipeline(u64),
    CreateFramebuffer(u64),
    DestroyFramebuffer(u64),
    /// A one-shot submission signalling a fence, no semaphores.
    SubmitTransfer(u64),
    /// A frame submission signalling the slot's present semaphore.
    SubmitDraw(u64),
    /// Presentation of an acquired image, waiting on a semaphore.
    Present(u64),
}

/// Does `props` offer everything `required` asks for?
pub open spec fn properties_contain(props: MemoryProperties, required: MemoryProperties) -> bool {
    &&& required.cpu_visible ==> props.cpu_visible
    &&& required.coherent ==> props.coherent
    &&& required.device_local ==> props.device_local
}

/// Does memory type `i` support the resource (its bit is set in the
/// requirement's type mask) and offer the required properties?
pub open spec fn memory_type_matches(
    types: Seq<MemoryType>,
    type_mask: u32,
    required: MemoryProperties,
    i: int,
) -> bool {
    &&& type_mask & (1u32 << (i as u32)) != 0
    &&& properties_contain(types[i].properties, required)
}

/// The first memory type whose bit is set in `type_mask` and whose
/// properties include `required`, exactly as the allocation paths pick
/// it.  `None` means the adapter cannot back the resource at all — a
/// fatal configuration error for the engine.
pub fn select_memory_type(
    memory_types: &Vec<MemoryType>,
    type_mask: u32,
    required: MemoryProperties,
) -> (r: Option<usize>)
    requires
        memory_types@.len() <= 32,
    ensures
        match r {
            Some(i) => {
                &&& i < memory_types@.len()
                &&& memory_type_matches(memory_types@, type_mask, required, i as int)
                &&& forall|j: int|
                    0 <= j < i ==> !memory_type_matches(memory_types@, type_mask, required, j)
            },
            None => forall|j: int|
                0 <= j < memory_types@.len()
                    ==> !memory_type_matches(memory_types@, type_mask, required, j),
        },
{
    let n = memory_types.len();
    let mut i: usize = 0;
    while i < n
        invariant
            n == memory_types@.len() <= 32,
            i <= n,
            forall|j: int| 0 <= j < i ==> !memory_type_matches(memory_types@, type_mask, required, j),
        decreases n - i,
    {
        let t = memory_types[i];
        let supported = type_mask & (1u32 << (i as u32)) != 0;
        let offers = (!required.cpu_visible || t.properties.cpu_visible)
            && (!required.coherent || t.properties.coherent)
            && (!required.device_local || t.properties.device_local);
        if supported && offers {
            return Some(i);
        }
        i = i + 1;
    }
    None
}

/// The memory properties a host-visible upload needs: directly mappable
/// and coherent.
pub fn upload_properties() -> (r: MemoryProperties)
    ensures
        r == (MemoryProperties { cpu_visible: true, coherent: true, device_local: false }),
{
    MemoryProperties { cpu_visible: true, coherent: true, device_local: false }
}

/// The memory properties a sampled image wants: device-local.
pub fn device_local_properties() -> (r: MemoryProperties)
    ensures
        r == (MemoryProperties { cpu_visible: false, coherent: false, device_local: true }),
{
    MemoryProperties { cpu_visible: false, coherent: false, device_local: true }
}

/// What the engine needs to know of one adapter queue family.
#[derive(Clone, Copy, PartialEq, Eq, Structural, Debug)]
pub struct QueueFamilyInfo {
    /// The family supports graphics work.
    pub supports_graphics: bool,
    /// The family can present to the target surface.
    pub supports_surface: bool,
}

/// The first queue family that can both draw and present, exactly as
/// device creation picks it.  `None` means the adapter cannot drive
/// the surface at all — fatal for the engine.
pub fn select_queue_family(families: &Vec<QueueFamilyInfo>) -> (r: Option<usize>)
    ensures
        match r {
            Some(i) => {
                &&& i < families@.len()
                &&& families@[i as int].supports_graphics
                &&& families@[i as int].supports_surface
                &&& forall|j: int|
                    0 <= j < i ==> !((#[trigger] families@[j]).supports_graphics
                        && families@[j].supports_surface)
            },
            None => forall|j: int|
                0 <= j < families@.len() ==> !((#[trigger] families@[j]).supports_graphics
                    && families@[j].supports_surface),
        },
{
    let n = families.len();
    let mut i: usize = 0;
    while i < n
        invariant
            n == families@.len(),
            i <= n,
            forall|j: int|
                0 <= j < i ==> !((#[trigger] families@[j]).supports_graphics
                    && families@[j].supports_surface),
        decreases n - i,
    {
        let f = families[i];
        if f.supports_graphics && f.supports_surface {
            return Some(i);
        }
        i = i + 1;
    }
    None
}

/// Is `a` a power of two?
pub open spec fn is_power_of_two(a: u32) -> bool {
    a != 0 && a & (a - 1) as u32 == 0
}

/// The logical device, its queue's adapter data, and the log of driver
/// calls issued so far.
pub struct DeviceState {
    /// The adapter's memory-type table.
    pub memory_types: Vec<MemoryType>,
    /// The adapter's limits.
    pub limits: Limits,
    /// The requirement type mask the device reports for buffers.
    pub buffer_type_mask: u32,
    /// The requirement type mask the device reports for sampled images.
    pub image_type_mask: u32,
    /// Every driver call issued against this device, in order.
    pub log: Vec<GpuOp>,
    /// The next object id to hand out.
    pub next_id: u64,
}

impl DeviceState {
    /// A device is well formed when the adapter data is within the
    /// API's bounds: at most 32 memory types, and a power-of-two
    /// row-pitch alignment.
    pub open spec fn wf(&self) -> bool {
        &&& self.memory_types@.len() <= 32
        &&& is_power_of_two(self.limits.optimal_buffer_copy_pitch_alignment)
    }

    /// Snapshot a freshly created logical device from the adapter's
    /// reported data.
    pub fn new(
        memory_types: Vec<MemoryType>,
        limits: Limits,
        buffer_type_mask: u32,
        image_type_mask: u32,
    ) -> (r: DeviceState)
        requires
            memory_types@.len() <= 32,
            is_power_of_two(limits.optimal_buffer_copy_pitch_alignment),
        ensures
            r.wf(),
            r.memory_types == memory_types,
            r.limits == limits,
            r.buffer_type_mask == buffer_type_mask,
            r.image_type_mask == image_type_mask,
            r.log@ =~= Seq::<GpuOp>::empty(),
            r.next_id == 0,
    {
        DeviceState {
            memory_types,
            limits,
            buffer_type_mask,
            image_type_mask,
            log: Vec::new(),
            next_id: 0,
        }
    }

    /// Hand out a fresh object id.
    pub fn fresh_id(&mut self) -> (r: u64)
        requires
            old(self).next_id < u64::MAX,
        ensures
            r == old(self).next_id,
            final(self).next_id == old(self).next_id + 1,
            final(self).memory_types == old(self).memory_types,
            final(self).limits == old(self).limits,
            final(self).buffer_type_mask == old(self).buffer_type_mask,
            final(self).image_type_mask == old(self).image_type_mask,
            final(self).log == old(self).log,
            final(self).wf() == old(self).wf(),
    {
        let id = self.next_id;
        self.next_id = self.next_id + 1;
        id
    }

    /// Record one driver call in the device log.
    pub fn log_op(&mut self, op: GpuOp)
        ensures
            final(self).log@ == old(self).log@.push(op),
            final(self).memory_types == old(self).memory_types,
            final(self).limits == old(self).limits,
            final(self).buffer_type_mask == old(self).buffer_type_mask,
            final(self).image_type_mask == old(self).image_type_mask,
            final(self).next_id == old(self).next_id,
            final(self).wf() == old(self).wf(),
    {
        self.log.push(op);
    }
}

} // verus!
