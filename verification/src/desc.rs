//! Descriptor layouts, pools, and shader-visible binding sets.
//!
//! A `DescSetLayout` declares which resource kinds sit at which binding
//! indices; a `DescSet` is allocated from a pool sized for the
//! program's needs and written exactly once with the concrete resource
//! handles.  Rebinding after that one write is not part of the
//! contract.

use vstd::prelude::*;

use crate::device::{DeviceState, GpuOp};

verus! {

/// The kind of resource a binding slot carries.
#[derive(Clone, Copy, PartialEq, Eq, Structural, Debug)]
pub enum DescriptorType {
    SampledImage,
    Sampler,
    UniformBuffer,
}

/// Which shader stage can see a binding.
#[derive(Clone, Copy, PartialEq, Eq, Structural, Debug)]
pub enum ShaderStage {
    Vertex,
    Fragment,
}

/// One slot of a descriptor-set layout.
#[derive(Clone, Copy, PartialEq, Eq, Structural, Debug)]
pub struct DescSetLayoutBinding {
    /// The binding index shader code refers to.
    pub binding: u32,
    /// The resource kind bound there.
    pub ty: DescriptorType,
    /// Number of descriptors in the slot.
    pub count: u32,
    /// The stage that reads the slot.
    pub stage: ShaderStage,
}

/// A concrete resource handle written into a set.
#[derive(Clone, Copy, PartialEq, Eq, Structural, Debug)]
pub enum Descriptor {
    /// A uniform buffer, by buffer id.
    Buffer(u64),
    /// A sampled image view, by view id.
    Image(u64),
    /// A sampler, by sampler id.
    Sampler(u64),
}

/// One write of a concrete resource into a binding slot.
#[derive(Clone, Copy, PartialEq, Eq, Structural, Debug)]
pub struct DescSetWrite {
    pub binding: u32,
    pub array_offset: u32,
    pub descriptor: Descriptor,
}

/// A pool the sets are allocated from, sized at creation.
pub struct DescriptorPool {
    /// Id of the pool object in the device log.
    pub pool_id: u64,
    /// How many sets the pool was sized for.
    pub capacity_sets: u32,
    /// How many sets have been allocated from it.
    pub allocated_sets: u32,
}

/// Create a descriptor pool sized for `capacity_sets` sets.
pub fn create_descriptor_pool(device: &mut DeviceState, capacity_sets: u32) -> (r: DescriptorPool)
    requires
        old(device).next_id < u64::MAX,
    ensures
        r.capacity_sets == capacity_sets,
        r.allocated_sets == 0,
        r.pool_id == old(device).next_id,
        final(device).log@ == old(device).log@.push(GpuOp::CreateDescriptorPool(r.pool_id)),
        final(device).next_id == old(device).next_id + 1,
        final(device).wf() == old(device).wf(),
        final(device).memory_types == old(device).memory_types,
        final(device).limits == old(device).limits,
        final(device).buffer_type_mask == old(device).buffer_type_mask,
        final(device).image_type_mask == old(device).image_type_mask,
{
    let pool_id = device.fresh_id();
    device.log_op(GpuOp::CreateDescriptorPool(pool_id));
    DescriptorPool { pool_id, capacity_sets, allocated_sets: 0 }
}

/// Release the pool, and with it every set allocated from it.
pub fn destroy_descriptor_pool(device: &mut DeviceState, pool: &DescriptorPool)
    ensures
        final(device).log@ == old(device).log@.push(GpuOp::DestroyDescriptorPool(pool.pool_id)),
        final(device).next_id == old(device).next_id,
        final(device).wf() == old(device).wf(),
        final(device).memory_types == old(device).memory_types,
        final(device).limits == old(device).limits,
        final(device).buffer_type_mask == old(device).buffer_type_mask,
        final(device).image_type_mask == old(device).image_type_mask,
{
    device.log_op(GpuOp::DestroyDescriptorPool(pool.pool_id));
}

/// A declared descriptor-set layout.
pub struct DescSetLayout {
    /// Id of the layout object in the device log.
    pub layout_id: u64,
    /// The declared binding slots.
    pub bindings: Vec<DescSetLayoutBinding>,
}

impl DescSetLayout {
    /// Declare a layout from its binding slots.
    pub fn new(device: &mut DeviceState, bindings: Vec<DescSetLayoutBinding>) -> (r: DescSetLayout)
        requires
            old(device).next_id < u64::MAX,
        ensures
            r.bindings == bindings,
            r.layout_id == old(device).next_id,
            final(device).log@ == old(device).log@.push(
                GpuOp::CreateDescriptorSetLayout(r.layout_id),
            ),
            final(device).next_id == old(device).next_id + 1,
            final(device).wf() == old(device).wf(),
            final(device).memory_types == old(device).memory_types,
            final(device).limits == old(device).limits,
            final(device).buffer_type_mask == old(device).buffer_type_mask,
            final(device).image_type_mask == old(device).image_type_mask,
    {
        let layout_id = device.fresh_id();
        device.log_op(GpuOp::CreateDescriptorSetLayout(layout_id));
        DescSetLayout { layout_id, bindings }
    }

    /// Allocate one set of this layout from `pool`.  The layout moves
    /// into the set, which starts unwritten.
    pub fn create_desc_set(
        self,
        pool: &mut DescriptorPool,
        device: &mut DeviceState,
    ) -> (r: DescSet)
        requires
            old(device).next_id < u64::MAX,
            old(pool).allocated_sets < old(pool).capacity_sets,
        ensures
            r.layout == self,
            r.set_id == old(device).next_id,
            r.writes@ =~= Seq::<DescSetWrite>::empty(),
            !r.written,
            final(pool).allocated_sets == old(pool).allocated_sets + 1,
            final(pool).capacity_sets == old(pool).capacity_sets,
            final(pool).pool_id == old(pool).pool_id,
            final(device).log@ == old(device).log@.push(GpuOp::AllocateDescriptorSet(r.set_id)),
            final(device).next_id == old(device).next_id + 1,
            final(device).wf() == old(device).wf(),
            final(device).memory_types == old(device).memory_types,
            final(device).limits == old(device).limits,
            final(device).buffer_type_mask == old(device).buffer_type_mask,
            final(device).image_type_mask == old(device).image_type_mask,
    {
        let set_id = device.fresh_id();
        device.log_op(GpuOp::AllocateDescriptorSet(set_id));
        pool.allocated_sets = pool.allocated_sets + 1;
        DescSet { set_id, layout: self, writes: Vec::new(), written: false }
    }
}

/// An allocated descriptor set: its layout, and the one-shot list of
/// concrete writes.
pub struct DescSet {
    /// Id of the set object in the device log.
    pub set_id: u64,
    /// The layout the set was allocated with.
    pub layout: DescSetLayout,
    /// The writes the set was filled with, empty until then.
    pub writes: Vec<DescSetWrite>,
    /// The set has received its one write.
    pub written: bool,
}

impl DescSet {
    /// Write the concrete resource handles into the set.  A set is
    /// written exactly once, at creation of the resource it describes.
    pub fn write_to_state(&mut self, writes: Vec<DescSetWrite>, device: &mut DeviceState)
        requires
            !old(self).written,
        ensures
            final(self).written,
            final(self).writes == writes,
            final(self).set_id == old(self).set_id,
            final(self).layout == old(self).layout,
            final(device).log@ == old(device).log@.push(
                GpuOp::WriteDescriptorSet(old(self).set_id),
            ),
            final(device).next_id == old(device).next_id,
            final(device).wf() == old(device).wf(),
            final(device).memory_types == old(device).memory_types,
            final(device).limits == old(device).limits,
            final(device).buffer_type_mask == old(device).buffer_type_mask,
            final(device).image_type_mask == old(device).image_type_mask,
    {
        device.log_op(GpuOp::WriteDescriptorSet(self.set_id));
        self.writes = writes;
        self.written = true;
    }

    /// The layout handle, for building pipeline layouts.
    pub fn get_layout(&self) -> (r: u64)
        ensures
            r == self.layout.layout_id,
    {
        self.layout.layout_id
    }
}

} // verus!
