//! The pipeline factory: the two pipeline layouts and the paired compute and
//! render pipelines made from one shader module.

use crate::bind_group::BindGroupLayout;
use crate::descriptor::{Capabilities, ConstantsLayout, Label, ShaderStages};
use crate::shader::{framing_error, parse_shader, spirv_words, ShaderError, ShaderModule};
use vstd::prelude::*;
use vstd::slice::slice_to_vec;

verus! {

/// The color format of a surface, `wgpu::TextureFormat`. It is carried from
/// the surface to the pipeline and renderer that draw to it and never looked
/// into.
#[verifier::external_type_specification]
#[verifier::external_body]
pub struct ExTextureFormat(wgpu::TextureFormat);

/// A range of push-constant bytes visible to some stages.
#[derive(Clone, Copy, Debug, PartialEq, Eq, Structural)]
pub struct PushConstantRange {
    pub stages: ShaderStages,
    pub start: u32,
    pub end: u32,
}

/// A pipeline layout to create.
#[derive(Clone, Debug, PartialEq, Eq)]
pub struct PipelineLayout {
    pub label: Label,
    pub bind_group_layouts: Vec<BindGroupLayout>,
    pub push_constant_ranges: Vec<PushConstantRange>,
}

/// The mathematical value of a [`PipelineLayout`].
pub struct PipelineLayoutView {
    pub label: Label,
    pub bind_group_layouts: Seq<BindGroupLayout>,
    pub push_constant_ranges: Seq<PushConstantRange>,
}

impl View for PipelineLayout {
    type V = PipelineLayoutView;

    open spec fn view(&self) -> PipelineLayoutView {
        PipelineLayoutView {
            label: self.label,
            bind_group_layouts: self.bind_group_layouts@,
            push_constant_ranges: self.push_constant_ranges@,
        }
    }
}

/// The layouts of the render and of the compute pipeline.
#[derive(Clone, Debug, PartialEq, Eq)]
pub struct PipelineLayouts {
    pub render: PipelineLayout,
    pub compute: PipelineLayout,
}

/// The mathematical value of a [`PipelineLayouts`].
pub struct PipelineLayoutsView {
    pub render: PipelineLayoutView,
    pub compute: PipelineLayoutView,
}

impl View for PipelineLayouts {
    type V = PipelineLayoutsView;

    open spec fn view(&self) -> PipelineLayoutsView {
        PipelineLayoutsView { render: self.render@, compute: self.compute@ }
    }
}

/// The push-constant ranges of a pipeline whose constants are `size` bytes
/// long and read by `stages`: one range from offset 0 where constants are
/// uploaded inline, none where they are emulated.
pub open spec fn push_constant_ranges(
    capabilities: Capabilities,
    stages: ShaderStages,
    size: u32,
) -> Seq<PushConstantRange> {
    if capabilities.emulates_constants() {
        seq![]
    } else {
        seq![PushConstantRange { stages, start: 0, end: size }]
    }
}

/// The two pipeline layouts over the given bind-group layouts.
pub open spec fn pipeline_layouts(
    bind_group_layouts: Seq<BindGroupLayout>,
    capabilities: Capabilities,
    constants: ConstantsLayout,
) -> PipelineLayoutsView {
    PipelineLayoutsView {
        render: PipelineLayoutView {
            label: Label::Unnamed,
            bind_group_layouts,
            push_constant_ranges: push_constant_ranges(
                capabilities,
                ShaderStages { compute: false, fragment: true },
                constants.fragment_size,
            ),
        },
        compute: PipelineLayoutView {
            label: Label::Unnamed,
            bind_group_layouts,
            push_constant_ranges: push_constant_ranges(
                capabilities,
                ShaderStages { compute: true, fragment: false },
                constants.compute_size,
            ),
        },
    }
}

fn pipeline_layout(
    bind_group_layouts: &[BindGroupLayout],
    capabilities: Capabilities,
    stages: ShaderStages,
    size: u32,
) -> (layout: PipelineLayout)
    ensures
        layout@ == (PipelineLayoutView {
            label: Label::Unnamed,
            bind_group_layouts: bind_group_layouts@,
            push_constant_ranges: push_constant_ranges(capabilities, stages, size),
        }),
{
    let mut ranges: Vec<PushConstantRange> = Vec::new();
    if capabilities.has_push_constants {
        ranges.push(PushConstantRange { stages, start: 0, end: size });
    }
    PipelineLayout {
        label: Label::Unnamed,
        bind_group_layouts: slice_to_vec(bind_group_layouts),
        push_constant_ranges: ranges,
    }
}

/// Describes the render and the compute pipeline layout. Both hold every
/// bind-group layout, in order. Where constants are uploaded inline the render
/// layout reserves a fragment-visible range of the size of the fragment
/// constants at offset 0 and the compute layout a compute-visible range of the
/// size of the compute constants at offset 0; where they are emulated neither
/// reserves any.
pub fn create_pipeline_layouts(
    bind_group_layouts: &[BindGroupLayout],
    capabilities: Capabilities,
    constants: ConstantsLayout,
) -> (layouts: PipelineLayouts)
    ensures
        layouts@ == pipeline_layouts(bind_group_layouts@, capabilities, constants),
{
    PipelineLayouts {
        render: pipeline_layout(
            bind_group_layouts,
            capabilities,
            ShaderStages::fragment_only(),
            constants.fragment_size,
        ),
        compute: pipeline_layout(
            bind_group_layouts,
            capabilities,
            ShaderStages::compute_only(),
            constants.compute_size,
        ),
    }
}

/// An entry point of the shader module.
#[derive(Clone, Copy, Debug, PartialEq, Eq, Structural)]
pub enum EntryPoint {
    Vertex,
    Fragment,
    Compute,
}

/// The name under which the module exports an entry point.
pub open spec fn entry_point_name(entry_point: EntryPoint) -> Seq<char> {
    match entry_point {
        EntryPoint::Vertex => "main_vs"@,
        EntryPoint::Fragment => "main_fs"@,
        EntryPoint::Compute => "main_cs"@,
    }
}

impl EntryPoint {
    /// The name under which the module exports this entry point.
    pub fn name(self) -> (name: &'static str)
        ensures
            name@ == entry_point_name(self),
    {
        match self {
            EntryPoint::Vertex => "main_vs",
            EntryPoint::Fragment => "main_fs",
            EntryPoint::Compute => "main_cs",
        }
    }
}

/// Different entry points have different names; in particular the compute
/// entry point is neither of the two the render pipeline uses.
pub proof fn lemma_entry_point_names_differ(a: EntryPoint, b: EntryPoint)
    requires
        a != b,
    ensures
        entry_point_name(a) != entry_point_name(b),
{
    reveal_strlit("main_vs");
    reveal_strlit("main_fs");
    reveal_strlit("main_cs");
    assert("main_vs"@[5] == 'v' && "main_fs"@[5] == 'f' && "main_cs"@[5] == 'c');
}

#[derive(Clone, Copy, Debug, PartialEq, Eq, Structural)]
pub enum PrimitiveTopology {
    PointList,
    LineList,
    LineStrip,
    TriangleList,
    TriangleStrip,
}

#[derive(Clone, Copy, Debug, PartialEq, Eq, Structural)]
pub enum FrontFace {
    Ccw,
    Cw,
}

#[derive(Clone, Copy, Debug, PartialEq, Eq, Structural)]
pub enum Face {
    Front,
    Back,
}

#[derive(Clone, Copy, Debug, PartialEq, Eq, Structural)]
pub enum PolygonMode {
    Fill,
    Line,
    Point,
}

/// How primitives are assembled and rasterized.
#[derive(Clone, Copy, Debug, PartialEq, Eq)]
pub struct PrimitiveState {
    pub topology: PrimitiveTopology,
    pub front_face: FrontFace,
    pub cull_mode: Option<Face>,
    pub unclipped_depth: bool,
    pub polygon_mode: PolygonMode,
    pub conservative: bool,
}

#[derive(Clone, Copy, Debug, PartialEq, Eq, Structural)]
pub struct MultisampleState {
    pub count: u32,
    pub mask: u64,
    pub alpha_to_coverage_enabled: bool,
}

/// The color channels a pipeline writes.
#[derive(Clone, Copy, Debug, PartialEq, Eq, Structural)]
pub struct ColorWrites {
    pub red: bool,
    pub green: bool,
    pub blue: bool,
    pub alpha: bool,
}

/// The single color target of the render pipeline.
#[derive(Clone, Copy, Debug, PartialEq, Eq)]
pub struct ColorTargetState {
    pub format: wgpu::TextureFormat,
    pub blend: bool,
    pub write_mask: ColorWrites,
}

/// The render pipeline to create. It reads no vertex buffers: the geometry,
/// one triangle of three vertices, is generated in the vertex shader.
#[derive(Clone, Copy, Debug, PartialEq, Eq)]
pub struct RenderPipeline {
    pub label: Label,
    pub vertex_entry_point: EntryPoint,
    pub vertex_buffers: u32,
    pub fragment_entry_point: EntryPoint,
    pub primitive: PrimitiveState,
    pub depth_stencil: bool,
    pub multisample: MultisampleState,
    pub target: ColorTargetState,
    pub multiview: Option<u32>,
    pub cache: bool,
}

/// The compute pipeline to create.
#[derive(Clone, Copy, Debug, PartialEq, Eq)]
pub struct ComputePipeline {
    pub label: Label,
    pub entry_point: EntryPoint,
    pub cache: bool,
}

/// The render pipeline for a surface of the given format: a triangle list with
/// counter-clockwise front faces, nothing culled, filled polygons, no depth or
/// stencil test, one sample per pixel, and a single target that is written in
/// all channels without blending.
pub open spec fn render_pipeline(surface_format: wgpu::TextureFormat) -> RenderPipeline {
    RenderPipeline {
        label: Label::Unnamed,
        vertex_entry_point: EntryPoint::Vertex,
        vertex_buffers: 0,
        fragment_entry_point: EntryPoint::Fragment,
        primitive: PrimitiveState {
            topology: PrimitiveTopology::TriangleList,
            front_face: FrontFace::Ccw,
            cull_mode: None,
            unclipped_depth: false,
            polygon_mode: PolygonMode::Fill,
            conservative: false,
        },
        depth_stencil: false,
        multisample: MultisampleState {
            count: 1,
            mask: 0xffff_ffff_ffff_ffff,
            alpha_to_coverage_enabled: false,
        },
        target: ColorTargetState {
            format: surface_format,
            blend: false,
            write_mask: ColorWrites { red: true, green: true, blue: true, alpha: true },
        },
        multiview: None,
        cache: false,
    }
}

/// The compute pipeline.
pub open spec fn compute_pipeline() -> ComputePipeline {
    ComputePipeline { label: Label::Unnamed, entry_point: EntryPoint::Compute, cache: false }
}

/// A compute and a render pipeline made from one shader module, with the
/// layouts they were made for.
#[derive(Clone, Debug, PartialEq, Eq)]
pub struct PipelineSet {
    pub module: ShaderModule,
    pub compute_pipeline: ComputePipeline,
    pub render_pipeline: RenderPipeline,
    pub compute_layout: PipelineLayout,
    pub render_layout: PipelineLayout,
}

/// The mathematical value of a [`PipelineSet`].
pub struct PipelineSetView {
    pub module: Seq<u32>,
    pub compute_pipeline: ComputePipeline,
    pub render_pipeline: RenderPipeline,
    pub compute_layout: PipelineLayoutView,
    pub render_layout: PipelineLayoutView,
}

impl View for PipelineSet {
    type V = PipelineSetView;

    open spec fn view(&self) -> PipelineSetView {
        PipelineSetView {
            module: self.module@,
            compute_pipeline: self.compute_pipeline,
            render_pipeline: self.render_pipeline,
            compute_layout: self.compute_layout@,
            render_layout: self.render_layout@,
        }
    }
}

/// The pipeline set made from the module `words` for the given layouts and
/// surface format.
pub open spec fn pipeline_set(
    layouts: PipelineLayoutsView,
    surface_format: wgpu::TextureFormat,
    words: Seq<u32>,
) -> PipelineSetView {
    PipelineSetView {
        module: words,
        compute_pipeline: compute_pipeline(),
        render_pipeline: render_pipeline(surface_format),
        compute_layout: layouts.compute,
        render_layout: layouts.render,
    }
}

fn render_pipeline_for(surface_format: wgpu::TextureFormat) -> (pipeline: RenderPipeline)
    ensures
        pipeline == render_pipeline(surface_format),
{
    RenderPipeline {
        label: Label::Unnamed,
        vertex_entry_point: EntryPoint::Vertex,
        vertex_buffers: 0,
        fragment_entry_point: EntryPoint::Fragment,
        primitive: PrimitiveState {
            topology: PrimitiveTopology::TriangleList,
            front_face: FrontFace::Ccw,
            cull_mode: None,
            unclipped_depth: false,
            polygon_mode: PolygonMode::Fill,
            conservative: false,
        },
        depth_stencil: false,
        multisample: MultisampleState {
            count: 1,
            mask: 0xffff_ffff_ffff_ffff,
            alpha_to_coverage_enabled: false,
        },
        target: ColorTargetState {
            format: surface_format,
            blend: false,
            write_mask: ColorWrites { red: true, green: true, blue: true, alpha: true },
        },
        multiview: None,
        cache: false,
    }
}

fn duplicate(layout: &PipelineLayout) -> (copy: PipelineLayout)
    ensures
        copy@ == layout@,
{
    PipelineLayout {
        label: layout.label,
        bind_group_layouts: slice_to_vec(layout.bind_group_layouts.as_slice()),
        push_constant_ranges: slice_to_vec(layout.push_constant_ranges.as_slice()),
    }
}

/// Frames `shader` as a module and describes the render and the compute
/// pipeline made from it for the given layouts. A stream that cannot be
/// framed is reported and no pipeline is described.
pub fn create_pipelines(
    layouts: &PipelineLayouts,
    surface_format: wgpu::TextureFormat,
    shader: &[u8],
) -> (result: Result<PipelineSet, ShaderError>)
    ensures
        match result {
            Ok(set) => framing_error(shader@) is None && set@ == pipeline_set(
                layouts@,
                surface_format,
                spirv_words(shader@),
            ),
            Err(e) => framing_error(shader@) == Some(e),
        },
{
    match parse_shader(shader) {
        Ok(module) => Ok(
            PipelineSet {
                module,
                compute_pipeline: ComputePipeline {
                    label: Label::Unnamed,
                    entry_point: EntryPoint::Compute,
                    cache: false,
                },
                render_pipeline: render_pipeline_for(surface_format),
                compute_layout: duplicate(&layouts.compute),
                render_layout: duplicate(&layouts.render),
            },
        ),
        Err(e) => Err(e),
    }
}

impl PipelineSet {
    /// The layouts the pipelines were made for.
    pub fn layouts(&self) -> (layouts: PipelineLayouts)
        ensures
            layouts@ == (PipelineLayoutsView {
                render: self@.render_layout,
                compute: self@.compute_layout,
            }),
    {
        PipelineLayouts {
            render: duplicate(&self.render_layout),
            compute: duplicate(&self.compute_layout),
        }
    }
}

} // verus!
