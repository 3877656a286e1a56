//! The graphics pipeline and its fixed-function state.
//!
//! The pipeline is built from the two descriptor-set layouts, a small
//! vertex-stage push-constant range, the fixed vertex layout (a 2-D
//! position and a 2-D texture coordinate, 16 bytes per vertex), and
//! straight alpha blending on the single colour target.  It is bound
//! to one render pass and must be rebuilt whenever the render pass
//! changes.

use vstd::prelude::*;

use crate::device::{DeviceState, GpuOp};

verus! {

/// The format of one vertex attribute: two 32-bit floats.
#[derive(Clone, Copy, PartialEq, Eq, Structural, Debug)]
pub enum AttributeFormat {
    Rg32Sfloat,
}

/// How the input assembler groups vertices into primitives.
#[derive(Clone, Copy, PartialEq, Eq, Structural, Debug)]
pub enum PrimitiveTopology {
    TriangleList,
}

/// How the rasteriser fills a primitive.
#[derive(Clone, Copy, PartialEq, Eq, Structural, Debug)]
pub enum PolygonMode {
    Fill,
}

/// One vertex attribute the pipeline reads.
#[derive(Clone, Copy, PartialEq, Eq, Structural, Debug)]
pub struct VertexAttribute {
    /// The shader location of the attribute.
    pub location: u32,
    /// The vertex-buffer binding it is read from.
    pub binding: u32,
    /// The attribute's data format.
    pub format: AttributeFormat,
    /// Byte offset of the attribute within a vertex.
    pub offset: u32,
}

/// Bytes per vertex: a 2-float position at offset 0 and a 2-float
/// texture coordinate at offset 8.
pub const VERTEX_STRIDE: u32 = 16;

/// Size in bytes of the vertex-stage push-constant range.
pub const PUSH_CONSTANT_BYTES: u32 = 8;

/// The fixed vertex layout: position at offset 0, texture coordinate
/// at offset 8.
pub open spec fn vertex_attributes_spec() -> Seq<VertexAttribute> {
    seq![
        VertexAttribute {
            location: 0u32,
            binding: 0u32,
            format: AttributeFormat::Rg32Sfloat,
            offset: 0u32,
        },
        VertexAttribute {
            location: 1u32,
            binding: 0u32,
            format: AttributeFormat::Rg32Sfloat,
            offset: 8u32,
        },
    ]
}

/// The driver calls a pipeline build issues, with ids counted up from
/// `base`: the pipeline layout, the two shader modules, the pipeline
/// itself, and the modules' release once the pipeline exists.
pub open spec fn pipeline_setup_ops(base: u64) -> Seq<GpuOp> {
    seq![
        GpuOp::CreatePipelineLayout(base),
        GpuOp::CreateShaderModule((base + 1) as u64),
        GpuOp::CreateShaderModule((base + 2) as u64),
        GpuOp::CreatePipeline((base + 3) as u64),
        GpuOp::DestroyShaderModule((base + 1) as u64),
        GpuOp::DestroyShaderModule((base + 2) as u64),
    ]
}

/// A graphics pipeline bound to one render pass.
pub struct PipelineState {
    /// Id of the pipeline object.
    pub pipeline_id: u64,
    /// Id of the pipeline layout.
    pub pipeline_layout_id: u64,
    /// The render pass the pipeline was built against.
    pub render_pass_id: u64,
    /// The descriptor-set layouts the pipeline layout lists, in order.
    pub set_layouts: Vec<u64>,
    /// Bytes per vertex.
    pub vertex_stride: u32,
    /// The vertex attributes, in location order.
    pub attributes: Vec<VertexAttribute>,
    /// Size of the vertex-stage push-constant range.
    pub push_constant_bytes: u32,
    /// How vertices are assembled: a plain triangle list.
    pub topology: PrimitiveTopology,
    /// How primitives are rasterised: filled.
    pub polygon_mode: PolygonMode,
    /// Straight alpha blending is enabled on the colour target.
    pub alpha_blending: bool,
    /// The pipeline objects are still live; destruction clears this.
    pub alive: bool,
}

impl PipelineState {
    /// Build the pipeline: create the layout over `set_layouts` with
    /// the push-constant range, compile-in the two shader modules,
    /// create the pipeline against `render_pass_id` with the fixed
    /// vertex layout, triangle-list topology, fill rasterisation and
    /// alpha blending, and release the modules.
    pub fn new(device: &mut DeviceState, set_layouts: Vec<u64>, render_pass_id: u64) -> (r:
        PipelineState)
        requires
            old(device).next_id + 4 <= u64::MAX,
        ensures
            r.alive,
            r.pipeline_layout_id == old(device).next_id,
            r.pipeline_id == old(device).next_id + 3,
            r.render_pass_id == render_pass_id,
            r.set_layouts == set_layouts,
            r.vertex_stride == VERTEX_STRIDE,
            r.attributes@ =~= vertex_attributes_spec(),
            r.push_constant_bytes == PUSH_CONSTANT_BYTES,
            r.topology == PrimitiveTopology::TriangleList,
            r.polygon_mode == PolygonMode::Fill,
            r.alpha_blending,
            final(device).log@ == old(device).log@ + pipeline_setup_ops(old(device).next_id),
            final(device).next_id == old(device).next_id + 4,
            final(device).wf() == old(device).wf(),
            final(device).memory_types == old(device).memory_types,
            final(device).limits == old(device).limits,
            final(device).buffer_type_mask == old(device).buffer_type_mask,
            final(device).image_type_mask == old(device).image_type_mask,
    {
        let pipeline_layout_id = device.fresh_id();
        device.log_op(GpuOp::CreatePipelineLayout(pipeline_layout_id));

        let vs_module_id = device.fresh_id();
        device.log_op(GpuOp::CreateShaderModule(vs_module_id));
        let fs_module_id = device.fresh_id();
        device.log_op(GpuOp::CreateShaderModule(fs_module_id));

        let mut attributes: Vec<VertexAttribute> = Vec::new();
        attributes.push(
            VertexAttribute { location: 0, binding: 0, format: AttributeFormat::Rg32Sfloat, offset: 0 },
        );
        attributes.push(
            VertexAttribute { location: 1, binding: 0, format: AttributeFormat::Rg32Sfloat, offset: 8 },
        );

        let pipeline_id = device.fresh_id();
        device.log_op(GpuOp::CreatePipeline(pipeline_id));

        device.log_op(GpuOp::DestroyShaderModule(vs_module_id));
        device.log_op(GpuOp::DestroyShaderModule(fs_module_id));

        proof {
            assert(device.log@ =~= old(device).log@ + pipeline_setup_ops(old(device).next_id));
        }

        PipelineState {
            pipeline_id,
            pipeline_layout_id,
            render_pass_id,
            set_layouts,
            vertex_stride: VERTEX_STRIDE,
            attributes,
            push_constant_bytes: PUSH_CONSTANT_BYTES,
            topology: PrimitiveTopology::TriangleList,
            polygon_mode: PolygonMode::Fill,
            alpha_blending: true,
            alive: true,
        }
    }

    /// Release the pipeline, then its layout.  A second call is a
    /// no-op.
    pub fn destroy(&mut self, device: &mut DeviceState)
        ensures
            !final(self).alive,
            old(self).alive ==> final(device).log@ == old(device).log@ + seq![
                GpuOp::DestroyPipeline(old(self).pipeline_id),
                GpuOp::DestroyPipelineLayout(old(self).pipeline_layout_id),
            ],
            !old(self).alive ==> *final(device) == *old(device) && *final(self) == *old(self),
            final(self).pipeline_id == old(self).pipeline_id,
            final(self).pipeline_layout_id == old(self).pipeline_layout_id,
            final(self).render_pass_id == old(self).render_pass_id,
            final(device).next_id == old(device).next_id,
            final(device).wf() == old(device).wf(),
            final(device).memory_types == old(device).memory_types,
            final(device).limits == old(device).limits,
            final(device).buffer_type_mask == old(device).buffer_type_mask,
            final(device).image_type_mask == old(device).image_type_mask,
    {
        if self.alive {
            device.log_op(GpuOp::DestroyPipeline(self.pipeline_id));
            device.log_op(GpuOp::DestroyPipelineLayout(self.pipeline_layout_id));
            self.alive = false;
            proof {
                assert(device.log@ =~= old(device).log@ + seq![
                    GpuOp::DestroyPipeline(old(self).pipeline_id),
                    GpuOp::DestroyPipelineLayout(old(self).pipeline_layout_id),
                ]);
            }
        }
    }
}

} // verus!
