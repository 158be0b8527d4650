use vstd::prelude::*;

use crate::vertex::VertexInputAttributeDescription;

verus! {

/// How vertices are assembled into primitives.
#[derive(Clone, Copy, Debug, PartialEq, Eq, Structural)]
pub enum PrimitiveTopology {
    PointList,
    LineList,
    LineStrip,
    TriangleList,
    TriangleStrip,
    TriangleFan,
}

/// Which faces are culled.
#[derive(Clone, Copy, Debug, PartialEq, Eq, Structural)]
pub enum CullMode {
    NoCulling,
    Front,
    Back,
    FrontAndBack,
}

/// How polygons are rasterised.
#[derive(Clone, Copy, Debug, PartialEq, Eq, Structural)]
pub enum PolygonMode {
    Fill,
    Line,
    Point,
}

/// A depth-test comparison.
#[derive(Clone, Copy, Debug, PartialEq, Eq, Structural)]
pub enum CompareOp {
    Never,
    Less,
    Equal,
    LessOrEqual,
    Greater,
    NotEqual,
    GreaterOrEqual,
    Always,
}

/// Whether a vertex binding advances per vertex or per instance.
#[derive(Clone, Copy, Debug, PartialEq, Eq, Structural)]
pub enum VertexInputRate {
    Vertex,
    Instance,
}

/// A pipeline state left to be set per frame rather than baked.
#[derive(Clone, Copy, Debug, PartialEq, Eq, Structural)]
pub enum DynamicState {
    Viewport,
    Scissor,
}

/// The input-assembly and rasterisation knobs of a pipeline.
#[derive(Clone, Copy, Debug, PartialEq, Eq, Structural)]
pub struct PrimitiveState {
    pub cull_mode: CullMode,
    pub topology: PrimitiveTopology,
    pub polygon_mode: PolygonMode,
}

/// The optional depth/stencil test configuration.
#[derive(Clone, Copy, Debug, PartialEq, Eq, Structural)]
pub struct DepthStencilState {
    pub depth_test_enable: bool,
    pub depth_write_enable: bool,
    pub depth_compare_op: CompareOp,
}

/// One vertex buffer binding: its index, stride and stepping rate.
#[derive(Clone, Copy, Debug, PartialEq, Eq, Structural)]
pub struct VertexInputBindingDescription {
    pub binding: u32,
    pub stride: u32,
    pub input_rate: VertexInputRate,
}

/// Per-attachment color blend state.
#[derive(Clone, Copy, Debug, PartialEq, Eq, Structural)]
pub struct ColorBlendAttachment {
    pub blend_enable: bool,
    pub color_write_mask: u32,
}

/// The compact declarative input: what the caller decides about a graphics
/// pipeline's fixed-function state.
#[derive(Debug, PartialEq)]
pub struct GraphicsPipelineDescriptor {
    pub primitive_state: PrimitiveState,
    pub depth_stencil_state: Option<DepthStencilState>,
    pub vertex_bindings: Vec<VertexInputBindingDescription>,
    pub vertex_attributes: Vec<VertexInputAttributeDescription>,
    pub colour_attachments: Vec<ColorBlendAttachment>,
}

/// The baked input-assembly sub-structure.
#[derive(Clone, Copy, Debug, PartialEq, Eq, Structural)]
pub struct InputAssemblyState {
    pub topology: PrimitiveTopology,
}

/// The baked rasterisation sub-structure.  The line width is fixed at one
/// texel and applied where the structure is handed to the underlying API.
#[derive(Clone, Copy, Debug, PartialEq, Eq, Structural)]
pub struct RasterisationState {
    pub polygon_mode: PolygonMode,
    pub cull_mode: CullMode,
}

/// The baked vertex-input sub-structure.
#[derive(Debug, PartialEq)]
pub struct VertexInputState {
    pub bindings: Vec<VertexInputBindingDescription>,
    pub attributes: Vec<VertexInputAttributeDescription>,
}

/// The baked viewport sub-structure: counts only, since the rectangles
/// themselves are dynamic.
#[derive(Clone, Copy, Debug, PartialEq, Eq, Structural)]
pub struct ViewportState {
    pub viewport_count: u32,
    pub scissor_count: u32,
}

/// The baked list of dynamic states.
#[derive(Debug, PartialEq)]
pub struct DynamicStateList {
    pub states: Vec<DynamicState>,
}

/// The baked multisampling sub-structure.
#[derive(Clone, Copy, Debug, PartialEq, Eq, Structural)]
pub struct MultisampleState {
    pub sample_shading_enable: bool,
    pub rasterization_samples: u32,
}

/// The baked color-blend sub-structure.
#[derive(Debug, PartialEq)]
pub struct ColorBlendState {
    pub logic_op_enable: bool,
    pub attachments: Vec<ColorBlendAttachment>,
}

/// The full set of fixed-function sub-structures a graphics pipeline needs,
/// derived from a [`GraphicsPipelineDescriptor`] by one pure transformation:
/// viewport and scissor counts fixed at one and declared dynamic,
/// multisampling fixed at one sample with sample shading disabled.
#[derive(Debug, PartialEq)]
pub struct BakedGraphicsPipelineDescriptor {
    pub input_assembly: InputAssemblyState,
    pub rasterisation_state: RasterisationState,
    pub vertex_input: VertexInputState,
    pub viewport_state: ViewportState,
    pub dynamic_state: DynamicStateList,
    pub depth_stencil: Option<DepthStencilState>,
    pub multisample_state: MultisampleState,
    pub colour_blend_state: ColorBlendState,
}

/// Everything needed to create one graphics pipeline: the baked
/// fixed-function state plus the shader stages and pass wiring.
#[derive(Debug, PartialEq)]
pub struct GraphicsPipelineCreateDesc {
    pub stages: Vec<u64>,
    pub input_assembly: InputAssemblyState,
    pub rasterisation_state: RasterisationState,
    pub vertex_input: VertexInputState,
    pub viewport_state: ViewportState,
    pub dynamic_state: DynamicStateList,
    pub depth_stencil: Option<DepthStencilState>,
    pub multisample_state: MultisampleState,
    pub colour_blend_state: ColorBlendState,
    pub pipeline_layout: u64,
    pub render_pass: u64,
    pub subpass: u32,
}

impl GraphicsPipelineDescriptor {
    /// Bakes the compact descriptor into the verbose fixed-function
    /// sub-structures, deterministically: the caller's primitive,
    /// depth/stencil, vertex layout and blend choices are carried over
    /// exactly; viewport and scissor counts are fixed at one and declared
    /// dynamic; multisampling is fixed at one sample.
    pub fn as_baked(&self) -> (r: BakedGraphicsPipelineDescriptor)
        ensures
            r.input_assembly == (InputAssemblyState { topology: self.primitive_state.topology }),
            r.rasterisation_state == (RasterisationState {
                polygon_mode: self.primitive_state.polygon_mode,
                cull_mode: self.primitive_state.cull_mode,
            }),
            r.vertex_input.bindings@ =~= self.vertex_bindings@,
            r.vertex_input.attributes@ =~= self.vertex_attributes@,
            r.viewport_state == (ViewportState { viewport_count: 1, scissor_count: 1 }),
            r.dynamic_state.states@ =~= seq![DynamicState::Viewport, DynamicState::Scissor],
            r.depth_stencil == self.depth_stencil_state,
            r.multisample_state == (MultisampleState {
                sample_shading_enable: false,
                rasterization_samples: 1,
            }),
            !r.colour_blend_state.logic_op_enable,
            r.colour_blend_state.attachments@ =~= self.colour_attachments@,
    {
        let mut dynamic_states: Vec<DynamicState> = Vec::new();
        dynamic_states.push(DynamicState::Viewport);
        dynamic_states.push(DynamicState::Scissor);
        BakedGraphicsPipelineDescriptor {
            input_assembly: InputAssemblyState { topology: self.primitive_state.topology },
            rasterisation_state: RasterisationState {
                polygon_mode: self.primitive_state.polygon_mode,
                cull_mode: self.primitive_state.cull_mode,
            },
            vertex_input: VertexInputState {
                bindings: copy_vec(&self.vertex_bindings),
                attributes: copy_vec(&self.vertex_attributes),
            },
            viewport_state: ViewportState { viewport_count: 1, scissor_count: 1 },
            dynamic_state: DynamicStateList { states: dynamic_states },
            depth_stencil: self.depth_stencil_state,
            multisample_state: MultisampleState {
                sample_shading_enable: false,
                rasterization_samples: 1,
            },
            colour_blend_state: ColorBlendState {
                logic_op_enable: false,
                attachments: copy_vec(&self.colour_attachments),
            },
        }
    }
}

impl BakedGraphicsPipelineDescriptor {
    /// Assembles the one-shot creation description: the baked fixed-function
    /// state carried over exactly, with the given shader stages, layout,
    /// render pass and subpass.
    pub fn as_pipeline_create_info(
        &self,
        stages: &Vec<u64>,
        pipeline_layout: u64,
        render_pass: u64,
        subpass: u32,
    ) -> (r: GraphicsPipelineCreateDesc)
        ensures
            r.stages@ =~= stages@,
            r.input_assembly == self.input_assembly,
            r.rasterisation_state == self.rasterisation_state,
            r.vertex_input.bindings@ =~= self.vertex_input.bindings@,
            r.vertex_input.attributes@ =~= self.vertex_input.attributes@,
            r.viewport_state == self.viewport_state,
            r.dynamic_state.states@ =~= self.dynamic_state.states@,
            r.depth_stencil == self.depth_stencil,
            r.multisample_state == self.multisample_state,
            r.colour_blend_state.logic_op_enable == self.colour_blend_state.logic_op_enable,
            r.colour_blend_state.attachments@ =~= self.colour_blend_state.attachments@,
            r.pipeline_layout == pipeline_layout,
            r.render_pass == render_pass,
            r.subpass == subpass,
    {
        GraphicsPipelineCreateDesc {
            stages: copy_vec(stages),
            input_assembly: self.input_assembly,
            rasterisation_state: self.rasterisation_state,
            vertex_input: VertexInputState {
                bindings: copy_vec(&self.vertex_input.bindings),
                attributes: copy_vec(&self.vertex_input.attributes),
            },
            viewport_state: self.viewport_state,
            dynamic_state: DynamicStateList { states: copy_vec(&self.dynamic_state.states) },
            depth_stencil: self.depth_stencil,
            multisample_state: self.multisample_state,
            colour_blend_state: ColorBlendState {
                logic_op_enable: self.colour_blend_state.logic_op_enable,
                attachments: copy_vec(&self.colour_blend_state.attachments),
            },
            pipeline_layout,
            render_pass,
            subpass,
        }
    }
}

/// Copies a vector of plain values.
fn copy_vec<T: Copy>(v: &Vec<T>) -> (r: Vec<T>)
    ensures
        r@ =~= v@,
{
    let mut out: Vec<T> = Vec::new();
    let mut i: usize = 0;
    while i < v.len()
        invariant
            i <= v@.len(),
            out@ =~= v@.take(i as int),
        decreases v@.len() - i,
    {
        out.push(v[i]);
        proof {
            assert(v@.take(i + 1 as int) =~= v@.take(i as int).push(v@[i as int]));
        }
        i = i + 1;
    }
    proof {
        assert(v@.take(v@.len() as int) =~= v@);
    }
    out
}

} // verus!
