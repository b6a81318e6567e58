//! The frame executor: what is created once for a shader program, and what is
//! recorded each frame.
//!
//! A frame is up to three passes, each recorded into a command buffer of its
//! own and submitted in this order: the compute dispatch, the fragment pass
//! that paints the content area, and the overlay pass of the control panel.
//! Every function here returns the description of one of them.

use crate::bind_group::{
    bind_group_layouts, bind_groups, compute_constants_group, compute_constants_index,
    compute_constants_layout, constants_bind_group, create_bind_group_layouts,
    fragment_constants_group, fragment_constants_index, fragment_constants_layout,
    maybe_create_bind_groups, BindGroupData, BindGroupDataView, BindGroupLayout,
};
use crate::descriptor::{
    views, BufferDescriptor, BufferDescriptorView, BufferKind, Capabilities, Label, Settings,
    ShaderStages,
};
use crate::pipeline::{
    compute_pipeline, create_pipeline_layouts, create_pipelines, pipeline_layouts, pipeline_set,
    push_constant_ranges, render_pipeline, PipelineSet, PipelineSetView,
};
use crate::shader::{framing_error, spirv_words, ShaderError};
use crate::surface::{SurfaceError, SurfaceState};
use crate::ui::TextureId;
use vstd::prelude::*;
use vstd::slice::slice_to_vec;

verus! {

/// Threads of one workgroup along each of the two axes.
pub const COMPUTE_THREADS: u32 = 16;

/// The number of workgroups that cover `extent` threads along one axis: the
/// extent divided by [`COMPUTE_THREADS`], rounded up.
pub open spec fn workgroup_count(extent: u32) -> int {
    if extent % COMPUTE_THREADS == 0 {
        extent as int / COMPUTE_THREADS as int
    } else {
        extent as int / COMPUTE_THREADS as int + 1
    }
}

/// The workgroups cover the extent, and one workgroup fewer would not: at
/// most the last workgroup of an axis is used in part.
pub proof fn lemma_workgroups_cover(extent: u32)
    ensures
        0 <= workgroup_count(extent) <= u32::MAX,
        COMPUTE_THREADS * (workgroup_count(extent) - 1) < extent,
        extent <= COMPUTE_THREADS * workgroup_count(extent),
{
}

/// Numbers of workgroups dispatched along the three axes.
#[derive(Clone, Copy, Debug, PartialEq, Eq, Structural)]
pub struct Workgroups {
    pub x: u32,
    pub y: u32,
    pub z: u32,
}

/// A range of vertices or instances: the first, and one past the last.
#[derive(Clone, Copy, Debug, PartialEq, Eq, Structural)]
pub struct DrawRange {
    pub start: u32,
    pub end: u32,
}

/// A size in physical pixels.
#[derive(Clone, Copy, Debug, PartialEq, Eq, Structural)]
pub struct Extent {
    pub width: u32,
    pub height: u32,
}

/// A bind group set at an index of a pass.
#[derive(Clone, Copy, Debug, PartialEq, Eq, Structural)]
pub struct BoundGroup {
    pub index: u32,
    /// Position of the bind group among the created ones.
    pub bind_group: usize,
}

/// Every one of `count` bind groups, each set at the index of its position.
pub open spec fn bound_groups(count: int) -> Seq<BoundGroup> {
    Seq::new(count as nat, |i: int| BoundGroup { index: i as u32, bind_group: i as usize })
}

/// How the scalar constants of a pass reach the shader.
#[derive(Clone, Debug, PartialEq, Eq)]
#[allow(inconsistent_fields)]
pub enum ConstantsUpload {
    /// Inline, as push constants of the pass.
    PushConstants { stages: ShaderStages, offset: u32, data: Vec<u8> },
    /// Written, before the pass, to the buffer of a bind group.
    WriteBuffer { bind_group: usize, offset: u64, data: Vec<u8> },
}

/// The mathematical value of a [`ConstantsUpload`].
#[allow(inconsistent_fields)]
pub enum ConstantsUploadView {
    PushConstants { stages: ShaderStages, offset: u32, data: Seq<u8> },
    WriteBuffer { bind_group: usize, offset: u64, data: Seq<u8> },
}

impl View for ConstantsUpload {
    type V = ConstantsUploadView;

    open spec fn view(&self) -> ConstantsUploadView {
        match self {
            ConstantsUpload::PushConstants { stages, offset, data } => {
                ConstantsUploadView::PushConstants { stages: *stages, offset: *offset, data: data@ }
            },
            ConstantsUpload::WriteBuffer { bind_group, offset, data } => {
                ConstantsUploadView::WriteBuffer {
                    bind_group: *bind_group,
                    offset: *offset,
                    data: data@,
                }
            },
        }
    }
}

impl ConstantsUploadView {
    /// Where in the constants' memory the upload begins.
    pub open spec fn offset(self) -> int {
        match self {
            ConstantsUploadView::PushConstants { offset, .. } => offset as int,
            ConstantsUploadView::WriteBuffer { offset, .. } => offset as int,
        }
    }

    /// The bytes uploaded.
    pub open spec fn data(self) -> Seq<u8> {
        match self {
            ConstantsUploadView::PushConstants { data, .. } => data,
            ConstantsUploadView::WriteBuffer { data, .. } => data,
        }
    }
}

/// The bytes a shader reads from its constants' memory, a push-constant range
/// or a storage buffer, after `upload` was applied to `memory`.
pub open spec fn observed(memory: Seq<u8>, upload: ConstantsUploadView) -> Seq<u8> {
    Seq::new(
        memory.len(),
        |i: int|
            if upload.offset() <= i < upload.offset() + upload.data().len() {
                upload.data()[i - upload.offset()]
            } else {
                memory[i]
            },
    )
}

/// The upload of the constants `data` for `stages`: inline where the
/// environment has push constants, else into the buffer of the group at
/// `group`; from offset 0 either way.
pub open spec fn constants_upload(
    capabilities: Capabilities,
    stages: ShaderStages,
    group: int,
    data: Seq<u8>,
) -> ConstantsUploadView {
    if capabilities.has_push_constants {
        ConstantsUploadView::PushConstants { stages, offset: 0, data }
    } else {
        ConstantsUploadView::WriteBuffer { bind_group: group as usize, offset: 0, data }
    }
}

/// Whichever way the constants travel, the shader reads the same bytes: the
/// emulated path uploads what the inline path uploads, to the same offset.
pub proof fn lemma_emulation_equivalent(
    native: Capabilities,
    emulating: Capabilities,
    stages: ShaderStages,
    native_group: int,
    emulating_group: int,
    data: Seq<u8>,
    memory: Seq<u8>,
)
    requires
        native.has_push_constants,
        emulating.emulates_constants(),
    ensures
        constants_upload(native, stages, native_group, data).data() == data,
        constants_upload(emulating, stages, emulating_group, data).data() == data,
        constants_upload(native, stages, native_group, data).offset() == 0,
        constants_upload(emulating, stages, emulating_group, data).offset() == 0,
        observed(memory, constants_upload(native, stages, native_group, data)) == observed(
            memory,
            constants_upload(emulating, stages, emulating_group, data),
        ),
        data.len() == memory.len() ==> observed(
            memory,
            constants_upload(emulating, stages, emulating_group, data),
        ) == data,
{
    assert(data.len() == memory.len() ==> observed(
        memory,
        constants_upload(emulating, stages, emulating_group, data),
    ) =~= data);
}

/// The compute pass of one iteration.
#[derive(Clone, Debug, PartialEq, Eq)]
pub struct ComputePass {
    pub constants: ConstantsUpload,
    pub bind_groups: Vec<BoundGroup>,
    pub workgroups: Workgroups,
}

/// The mathematical value of a [`ComputePass`].
pub struct ComputePassView {
    pub constants: ConstantsUploadView,
    pub bind_groups: Seq<BoundGroup>,
    pub workgroups: Workgroups,
}

impl View for ComputePass {
    type V = ComputePassView;

    open spec fn view(&self) -> ComputePassView {
        ComputePassView {
            constants: self.constants@,
            bind_groups: self.bind_groups@,
            workgroups: self.workgroups,
        }
    }
}

/// A color a pass clears its target to.
#[derive(Clone, Copy, Debug, PartialEq, Eq, Structural)]
pub enum Color {
    Transparent,
    Black,
    White,
    Red,
    Green,
    Blue,
}

/// What a pass does with the contents its target has when the pass begins.
#[derive(Clone, Copy, Debug, PartialEq, Eq, Structural)]
pub enum LoadOp {
    Clear(Color),
    Load,
}

/// The part of the target a pass draws to. `left`, `width` and `height` are
/// physical pixels. `top_points` is a length in logical points: the distance
/// of the viewport from the top of the target is this length times the scale
/// factor of the display.
#[derive(Clone, Copy, Debug, PartialEq, Eq, Structural)]
pub struct Viewport {
    pub left: u32,
    pub top_points: u32,
    pub width: u32,
    pub height: u32,
    pub min_depth: u32,
    pub max_depth: u32,
}

/// The fragment pass that paints the content area.
#[derive(Clone, Debug, PartialEq, Eq)]
pub struct ShaderPass {
    pub encoder_label: Label,
    pub pass_label: Label,
    pub load: LoadOp,
    pub store: bool,
    pub viewport: Viewport,
    pub constants: ConstantsUpload,
    pub bind_groups: Vec<BoundGroup>,
    pub vertices: DrawRange,
    pub instances: DrawRange,
}

/// The mathematical value of a [`ShaderPass`].
pub struct ShaderPassView {
    pub encoder_label: Label,
    pub pass_label: Label,
    pub load: LoadOp,
    pub store: bool,
    pub viewport: Viewport,
    pub constants: ConstantsUploadView,
    pub bind_groups: Seq<BoundGroup>,
    pub vertices: DrawRange,
    pub instances: DrawRange,
}

impl View for ShaderPass {
    type V = ShaderPassView;

    open spec fn view(&self) -> ShaderPassView {
        ShaderPassView {
            encoder_label: self.encoder_label,
            pass_label: self.pass_label,
            load: self.load,
            store: self.store,
            viewport: self.viewport,
            constants: self.constants@,
            bind_groups: self.bind_groups@,
            vertices: self.vertices,
            instances: self.instances,
        }
    }
}

/// The overlay pass of the control panel. The textures to update are uploaded
/// before the pass is recorded; the textures to free are freed once it is.
#[derive(Clone, Debug, PartialEq, Eq)]
pub struct UiPass {
    pub encoder_label: Label,
    pub pass_label: Label,
    pub size_in_pixels: Extent,
    pub update_textures: Vec<TextureId>,
    pub free_textures: Vec<TextureId>,
    pub load: LoadOp,
    pub store: bool,
}

/// The mathematical value of a [`UiPass`].
pub struct UiPassView {
    pub encoder_label: Label,
    pub pass_label: Label,
    pub size_in_pixels: Extent,
    pub update_textures: Seq<TextureId>,
    pub free_textures: Seq<TextureId>,
    pub load: LoadOp,
    pub store: bool,
}

impl View for UiPass {
    type V = UiPassView;

    open spec fn view(&self) -> UiPassView {
        UiPassView {
            encoder_label: self.encoder_label,
            pass_label: self.pass_label,
            size_in_pixels: self.size_in_pixels,
            update_textures: self.update_textures@,
            free_textures: self.free_textures@,
            load: self.load,
            store: self.store,
        }
    }
}

/// One step of a frame once its acquisition was attempted.
#[derive(Clone, Debug, PartialEq, Eq)]
pub enum FrameStep {
    /// Configure the surface again: with the given state, which is the
    /// recorded one, where there is one; else as it was configured last.
    Reconfigure(Option<SurfaceState>),
    /// Record and submit the fragment pass.
    Shader(ShaderPass),
    /// Let the control panel prepare its output, then record and submit the
    /// overlay pass that [`RenderPass::render_ui`] describes.
    Overlay,
    /// Present the frame.
    Present,
}

/// The mathematical value of a [`FrameStep`].
pub enum FrameStepView {
    Reconfigure(Option<SurfaceState>),
    Shader(ShaderPassView),
    Overlay,
    Present,
}

impl View for FrameStep {
    type V = FrameStepView;

    open spec fn view(&self) -> FrameStepView {
        match self {
            FrameStep::Reconfigure(configure) => FrameStepView::Reconfigure(*configure),
            FrameStep::Shader(pass) => FrameStepView::Shader(pass@),
            FrameStep::Overlay => FrameStepView::Overlay,
            FrameStep::Present => FrameStepView::Present,
        }
    }
}

/// The renderer of the control panel to create.
#[derive(Clone, Copy, Debug, PartialEq, Eq)]
pub struct UiRenderer {
    pub output_color_format: wgpu::TextureFormat,
    pub output_depth_format: bool,
    pub msaa_samples: u32,
    pub dithering: bool,
}

/// The renderer of the control panel for a surface of the given format: no
/// depth buffer, one sample per pixel, no dithering.
pub open spec fn ui_renderer(surface_format: wgpu::TextureFormat) -> UiRenderer {
    UiRenderer {
        output_color_format: surface_format,
        output_depth_format: false,
        msaa_samples: 1,
        dithering: false,
    }
}

/// Whether a bind group can be created as described from the given layouts:
/// its layout exists, it binds at the layout's index, and its buffer may be
/// used the way the layout binds it.
pub open spec fn fits(data: BindGroupDataView, layouts: Seq<BindGroupLayout>) -> bool {
    &&& data.bind_group.layout < layouts.len()
    &&& data.bind_group.binding == layouts[data.bind_group.layout as int].entry.binding
    &&& match layouts[data.bind_group.layout as int].entry.ty {
        BufferKind::Storage { .. } => data.buffer.usage.storage,
        BufferKind::Uniform => data.buffer.usage.uniform,
    }
}

/// The mathematical value of a [`RenderPass`].
pub struct RenderPassView {
    pub pipelines: PipelineSetView,
    pub ui_renderer: UiRenderer,
    pub bind_group_data: Seq<BindGroupDataView>,
    pub settings: Settings,
}

impl RenderPassView {
    /// The bind-group layouts both pipelines were made for.
    pub open spec fn layouts(self) -> Seq<BindGroupLayout> {
        self.pipelines.render_layout.bind_group_layouts
    }

    /// Where constants are emulated, the last two layouts and the last two
    /// bind groups are those of the constants, the fragment stage's before the
    /// compute stage's: each group is bound to the layout that its stage sees,
    /// and backed by a zeroed, writable buffer of the size of its constants.
    pub open spec fn constants_in_order(self) -> bool {
        let groups = self.bind_group_data.len() as int;
        let layouts = self.layouts().len() as int;
        &&& groups >= 2
        &&& layouts >= 2
        &&& self.layouts()[fragment_constants_group(layouts)] == fragment_constants_layout()
        &&& self.layouts()[compute_constants_group(layouts)] == compute_constants_layout()
        &&& self.bind_group_data[fragment_constants_group(groups)] == constants_bind_group(
            Label::EmulatedFragmentConstantsBindGroup,
            self.settings.constants.fragment_size,
            fragment_constants_group(layouts),
            fragment_constants_group(groups),
        )
        &&& self.bind_group_data[compute_constants_group(groups)] == constants_bind_group(
            Label::EmulatedComputeConstantsBindGroup,
            self.settings.constants.compute_size,
            compute_constants_group(layouts),
            compute_constants_group(groups),
        )
    }

    /// What holds of every frame executor: both pipelines share the
    /// bind-group layouts; each pipeline layout reserves a push-constant range
    /// for its stage exactly where constants are uploaded inline; every bind
    /// group fits the layouts and is backed by the buffer at its own position,
    /// so no two share a buffer; and where constants are emulated their groups
    /// are in place and in order.
    pub open spec fn wf(self) -> bool {
        &&& self.bind_group_data.len() <= u32::MAX
        &&& self.layouts().len() <= u32::MAX
        &&& self.settings.capabilities.emulates_constants() ==> self.constants_in_order()
        &&& self.pipelines.compute_layout.bind_group_layouts == self.layouts()
        &&& self.pipelines.render_layout.push_constant_ranges == push_constant_ranges(
            self.settings.capabilities,
            ShaderStages { compute: false, fragment: true },
            self.settings.constants.fragment_size,
        )
        &&& self.pipelines.compute_layout.push_constant_ranges == push_constant_ranges(
            self.settings.capabilities,
            ShaderStages { compute: true, fragment: false },
            self.settings.constants.compute_size,
        )
        &&& self.pipelines.render_pipeline == render_pipeline(self.ui_renderer.output_color_format)
        &&& self.pipelines.compute_pipeline == compute_pipeline()
        &&& forall|i: int|
            0 <= i < self.bind_group_data.len() ==> {
                &&& (#[trigger] self.bind_group_data[i]).bind_group.buffer == i
                &&& fits(self.bind_group_data[i], self.layouts())
            }
    }

    /// The same frame executor with its pipelines remade from another module.
    pub open spec fn with_module(self, words: Seq<u32>) -> RenderPassView {
        RenderPassView {
            pipelines: PipelineSetView {
                module: words,
                compute_pipeline: self.pipelines.compute_pipeline,
                render_pipeline: self.pipelines.render_pipeline,
                compute_layout: self.pipelines.compute_layout,
                render_layout: self.pipelines.render_layout,
            },
            ui_renderer: self.ui_renderer,
            bind_group_data: self.bind_group_data,
            settings: self.settings,
        }
    }
}

/// The frame executor made for a sequence of declared buffers from the module
/// `words`.
pub open spec fn render_pass(
    descriptors: Seq<BufferDescriptorView>,
    settings: Settings,
    surface_format: wgpu::TextureFormat,
    words: Seq<u32>,
) -> RenderPassView {
    let layouts = bind_group_layouts(descriptors, settings.capabilities);
    RenderPassView {
        pipelines: pipeline_set(
            pipeline_layouts(layouts, settings.capabilities, settings.constants),
            surface_format,
            words,
        ),
        ui_renderer: ui_renderer(surface_format),
        bind_group_data: bind_groups(
            descriptors,
            layouts.len() as int,
            settings.capabilities,
            settings.constants,
        ),
        settings,
    }
}

/// A frame executor has one bind group per declared buffer, in declaration
/// order, and two more where constants are emulated.
pub proof fn lemma_render_pass_groups(
    descriptors: Seq<BufferDescriptorView>,
    settings: Settings,
    surface_format: wgpu::TextureFormat,
    words: Seq<u32>,
)
    ensures
        ({
            let pass = render_pass(descriptors, settings, surface_format, words);
            let extra: int = if settings.capabilities.emulates_constants() {
                2
            } else {
                0
            };
            &&& pass.bind_group_data.len() == descriptors.len() + extra
            &&& pass.layouts().len() == descriptors.len() + extra
            &&& forall|i: int|
                0 <= i < descriptors.len() ==> {
                    &&& (#[trigger] pass.bind_group_data[i]).buffer.contents
                        == descriptors[i].initial_bytes
                    &&& pass.bind_group_data[i].bind_group.layout == i as usize
                    &&& pass.layouts()[i].entry.ty == descriptors[i].buffer_kind
                    &&& pass.layouts()[i].entry.visibility == descriptors[i].visible_stages
                }
        }),
{
}

/// A frame executor made for at most `u32::MAX` bind groups is well formed.
pub proof fn lemma_render_pass_wf(
    descriptors: Seq<BufferDescriptorView>,
    settings: Settings,
    surface_format: wgpu::TextureFormat,
    words: Seq<u32>,
)
    requires
        descriptors.len() + 2 <= u32::MAX,
    ensures
        render_pass(descriptors, settings, surface_format, words).wf(),
{
    let pass = render_pass(descriptors, settings, surface_format, words);
    lemma_render_pass_groups(descriptors, settings, surface_format, words);
    assert forall|i: int| 0 <= i < pass.bind_group_data.len() implies {
        &&& (#[trigger] pass.bind_group_data[i]).bind_group.buffer == i
        &&& fits(pass.bind_group_data[i], pass.layouts())
    } by {
        if i < descriptors.len() {
            assert(pass.layouts()[i].entry.ty == descriptors[i].buffer_kind);
        }
    }
}

/// Remaking the pipelines changes neither the layouts nor the bind groups, so
/// every bind group created before still fits; and remaking them twice from
/// one module gives what remaking them once gives.
pub proof fn lemma_rebuild_keeps_bind_groups(pass: RenderPassView, words: Seq<u32>)
    requires
        pass.wf(),
    ensures
        pass.with_module(words).wf(),
        pass.with_module(words).layouts() == pass.layouts(),
        pass.with_module(words).bind_group_data == pass.bind_group_data,
        forall|i: int|
            0 <= i < pass.bind_group_data.len() ==> fits(
                #[trigger] pass.bind_group_data[i],
                pass.with_module(words).layouts(),
            ),
        pass.with_module(words).with_module(words) == pass.with_module(words),
{
}

/// The compute pass for the dimensions `width` by `height`.
pub open spec fn compute_pass(
    pass: RenderPassView,
    width: u32,
    height: u32,
    constants: Seq<u8>,
) -> ComputePassView {
    ComputePassView {
        constants: constants_upload(
            pass.settings.capabilities,
            ShaderStages { compute: true, fragment: false },
            compute_constants_group(pass.bind_group_data.len() as int),
            constants,
        ),
        bind_groups: bound_groups(pass.bind_group_data.len() as int),
        workgroups: Workgroups {
            x: workgroup_count(width) as u32,
            y: workgroup_count(height) as u32,
            z: 1,
        },
    }
}

/// The viewport of the fragment pass on a surface: the size of the surface,
/// moved down by the height of the control panel's strip.
pub open spec fn content_viewport(settings: Settings, surface: SurfaceState) -> Viewport {
    Viewport {
        left: 0,
        top_points: settings.ui_strip_height,
        width: surface.width,
        height: surface.height,
        min_depth: 0,
        max_depth: 1,
    }
}

/// The fragment pass on a surface.
pub open spec fn shader_pass(
    pass: RenderPassView,
    surface: SurfaceState,
    constants: Seq<u8>,
) -> ShaderPassView {
    ShaderPassView {
        encoder_label: Label::ShaderEncoder,
        pass_label: Label::ShaderRenderPass,
        load: LoadOp::Clear(Color::Green),
        store: true,
        viewport: content_viewport(pass.settings, surface),
        constants: constants_upload(
            pass.settings.capabilities,
            ShaderStages { compute: false, fragment: true },
            fragment_constants_group(pass.bind_group_data.len() as int),
            constants,
        ),
        bind_groups: bound_groups(pass.bind_group_data.len() as int),
        vertices: DrawRange { start: 0, end: 3 },
        instances: DrawRange { start: 0, end: 1 },
    }
}

/// The overlay pass on a surface: drawn over what the target holds.
pub open spec fn ui_pass(
    surface: SurfaceState,
    update_textures: Seq<TextureId>,
    free_textures: Seq<TextureId>,
) -> UiPassView {
    UiPassView {
        encoder_label: Label::UiEncoder,
        pass_label: Label::UiRenderPass,
        size_in_pixels: Extent { width: surface.width, height: surface.height },
        update_textures,
        free_textures,
        load: LoadOp::Load,
        store: true,
    }
}

/// The steps of a frame, in order. After a transient failure to acquire, a
/// lost or an outdated surface, the surface is configured again and the frame
/// skipped: nothing is recorded and nothing presented. Any other failure to
/// acquire is handed on. An acquired frame gets the fragment pass, where the
/// surface has an area, then the overlay pass, and is presented.
pub open spec fn frame(
    pass: RenderPassView,
    acquired: Result<(), SurfaceError>,
    surface: SurfaceState,
    constants: Seq<u8>,
) -> Result<Seq<FrameStepView>, SurfaceError> {
    match acquired {
        Err(e) => if e.is_transient() {
            Ok(seq![FrameStepView::Reconfigure(surface.configuration())])
        } else {
            Err(e)
        },
        Ok(()) => Ok(
            if surface.drawable() {
                seq![
                    FrameStepView::Shader(shader_pass(pass, surface, constants)),
                    FrameStepView::Overlay,
                    FrameStepView::Present,
                ]
            } else {
                seq![FrameStepView::Overlay, FrameStepView::Present]
            },
        ),
    }
}

/// On a surface with an area, an acquired frame begins with the fragment pass,
/// and the viewport of that pass has the width and height of the surface,
/// unmodified, lies at its left edge, and begins below the strip of the
/// control panel.
pub proof fn lemma_viewport_fills_surface(
    pass: RenderPassView,
    surface: SurfaceState,
    constants: Seq<u8>,
)
    requires
        surface.width > 0,
        surface.height > 0,
    ensures
        ({
            &&& frame(pass, Ok(()), surface, constants) matches Ok(steps)
            &&& steps.len() == 3
            &&& steps[0] matches FrameStepView::Shader(shader)
            &&& shader.viewport == (Viewport {
                left: 0,
                top_points: pass.settings.ui_strip_height,
                width: surface.width,
                height: surface.height,
                min_depth: 0,
                max_depth: 1,
            })
        }),
{
}

/// On a surface without an area no step of a frame is a fragment pass,
/// whatever the acquisition gave.
pub proof fn lemma_no_fragment_pass_without_area(
    pass: RenderPassView,
    acquired: Result<(), SurfaceError>,
    surface: SurfaceState,
    constants: Seq<u8>,
)
    requires
        surface.width == 0 || surface.height == 0,
    ensures
        frame(pass, acquired, surface, constants) matches Ok(steps) ==> forall|i: int|
            0 <= i < steps.len() ==> !(#[trigger] steps[i] is Shader),
{
}

/// A lost or outdated surface costs exactly the frame: the one step is to
/// configure the surface again, nothing is recorded and nothing presented, and
/// no error is returned. Every other failure to acquire is returned as it is.
pub proof fn lemma_transient_failure_skips_frame(
    pass: RenderPassView,
    error: SurfaceError,
    surface: SurfaceState,
    constants: Seq<u8>,
)
    ensures
        error == SurfaceError::Lost || error == SurfaceError::Outdated ==> frame(
            pass,
            Err(error),
            surface,
            constants,
        ) == Ok::<Seq<FrameStepView>, SurfaceError>(
            seq![FrameStepView::Reconfigure(surface.configuration())],
        ),
        error == SurfaceError::Timeout || error == SurfaceError::OutOfMemory ==> frame(
            pass,
            Err(error),
            surface,
            constants,
        ) == Err::<Seq<FrameStepView>, SurfaceError>(error),
        surface.configuration() matches Some(state) ==> state == surface && state.width > 0
            && state.height > 0,
{
}

/// Where constants are emulated, the fragment pass writes its constants to
/// the buffer of the fragment-constants group and the compute pass writes its
/// own to the buffer of the compute-constants group; each of these buffers is
/// bound to the layout that only its stage sees, and the fragment group
/// precedes the compute group.
pub proof fn lemma_constants_reach_their_stage(
    pass: RenderPassView,
    surface: SurfaceState,
    width: u32,
    height: u32,
    constants: Seq<u8>,
)
    requires
        pass.wf(),
        pass.settings.capabilities.emulates_constants(),
    ensures
        ({
            let fragment = shader_pass(pass, surface, constants).constants;
            let compute = compute_pass(pass, width, height, constants).constants;
            &&& fragment matches ConstantsUploadView::WriteBuffer { bind_group: f, .. }
            &&& compute matches ConstantsUploadView::WriteBuffer { bind_group: c, .. }
            &&& f + 1 == c
            &&& c + 1 == pass.bind_group_data.len()
            &&& pass.bind_group_data[f as int].buffer.usage.copy_dst
            &&& pass.bind_group_data[c as int].buffer.usage.copy_dst
            &&& pass.bind_group_data[f as int].buffer.contents.len()
                == pass.settings.constants.fragment_size
            &&& pass.bind_group_data[c as int].buffer.contents.len()
                == pass.settings.constants.compute_size
            &&& pass.layouts()[pass.bind_group_data[f as int].bind_group.layout as int]
                == fragment_constants_layout()
            &&& pass.layouts()[pass.bind_group_data[c as int].bind_group.layout as int]
                == compute_constants_layout()
        }),
{
}

/// Everything created once for a shader program: the pipelines with their
/// layouts, the bind groups with their buffers, and the renderer of the
/// control panel.
#[derive(Debug, PartialEq, Eq)]
pub struct RenderPass {
    pipelines: PipelineSet,
    ui_renderer: UiRenderer,
    bind_group_data: Vec<BindGroupData>,
    settings: Settings,
}

impl View for RenderPass {
    type V = RenderPassView;

    closed spec fn view(&self) -> RenderPassView {
        RenderPassView {
            pipelines: self.pipelines@,
            ui_renderer: self.ui_renderer,
            bind_group_data: views(self.bind_group_data@),
            settings: self.settings,
        }
    }
}

fn workgroups_along(extent: u32) -> (count: u32)
    ensures
        count == workgroup_count(extent),
{
    if extent % COMPUTE_THREADS == 0 {
        extent / COMPUTE_THREADS
    } else {
        extent / COMPUTE_THREADS + 1
    }
}

fn bind_all(count: usize) -> (groups: Vec<BoundGroup>)
    requires
        count <= u32::MAX,
    ensures
        groups@ == bound_groups(count as int),
{
    let mut groups: Vec<BoundGroup> = Vec::new();
    let mut i: usize = 0;
    while i < count
        invariant
            i <= count <= u32::MAX,
            groups@ == bound_groups(i as int),
        decreases count - i,
    {
        groups.push(BoundGroup { index: i as u32, bind_group: i });
        assert(groups@ =~= bound_groups(i + 1));
        i += 1;
    }
    groups
}

impl RenderPass {
    #[verifier::type_invariant]
    spec fn well_formed(self) -> bool {
        self@.wf()
    }

    /// Describes everything to create for the declared buffers and the shader
    /// binary: the bind-group layouts, the pipeline layouts over them, the
    /// pipelines, the bind groups with their buffers, and the renderer of the
    /// control panel. A binary that cannot be framed is reported.
    pub fn new(
        descriptors: &[BufferDescriptor],
        settings: Settings,
        surface_format: wgpu::TextureFormat,
        shader: &[u8],
    ) -> (result: Result<RenderPass, ShaderError>)
        requires
            descriptors.len() + 2 <= u32::MAX,
        ensures
            match result {
                Ok(pass) => {
                    &&& framing_error(shader@) is None
                    &&& pass@ == render_pass(
                        views(descriptors@),
                        settings,
                        surface_format,
                        spirv_words(shader@),
                    )
                    &&& pass@.wf()
                },
                Err(e) => framing_error(shader@) == Some(e),
            },
    {
        let bind_group_layouts = create_bind_group_layouts(descriptors, settings.capabilities);
        let pipeline_layouts = create_pipeline_layouts(
            bind_group_layouts.as_slice(),
            settings.capabilities,
            settings.constants,
        );
        let pipelines = match create_pipelines(&pipeline_layouts, surface_format, shader) {
            Ok(pipelines) => pipelines,
            Err(e) => {
                return Err(e);
            },
        };
        let bind_group_data = maybe_create_bind_groups(
            descriptors,
            bind_group_layouts.as_slice(),
            settings.capabilities,
            settings.constants,
        );
        let ui_renderer = UiRenderer {
            output_color_format: surface_format,
            output_depth_format: false,
            msaa_samples: 1,
            dithering: false,
        };
        proof {
            lemma_render_pass_wf(
                views(descriptors@),
                settings,
                surface_format,
                spirv_words(shader@),
            );
        }
        Ok(RenderPass { pipelines, ui_renderer, bind_group_data, settings })
    }

    /// The pipelines and their layouts.
    pub fn pipelines(&self) -> (pipelines: &PipelineSet)
        ensures
            pipelines@ == self@.pipelines,
    {
        &self.pipelines
    }

    /// The renderer of the control panel.
    pub fn ui_renderer(&self) -> (renderer: UiRenderer)
        ensures
            renderer == self@.ui_renderer,
    {
        self.ui_renderer
    }

    /// The bind groups and their buffers, in the order of their indices.
    pub fn bind_group_data(&self) -> (data: &Vec<BindGroupData>)
        ensures
            views(data@) == self@.bind_group_data,
    {
        &self.bind_group_data
    }

    /// What this frame executor was configured with.
    pub fn settings(&self) -> (settings: Settings)
        ensures
            settings == self@.settings,
    {
        self.settings
    }

    fn upload(&self, stages: ShaderStages, group: usize, data: &[u8]) -> (upload: ConstantsUpload)
        ensures
            upload@ == constants_upload(self@.settings.capabilities, stages, group as int, data@),
    {
        if self.settings.capabilities.has_push_constants {
            ConstantsUpload::PushConstants { stages, offset: 0, data: slice_to_vec(data) }
        } else {
            ConstantsUpload::WriteBuffer { bind_group: group, offset: 0, data: slice_to_vec(data) }
        }
    }

    /// Describes the compute pass for the dimensions `width` by `height`: the
    /// constants are uploaded, inline or into the buffer of the last bind
    /// group; every bind group is set at its index; and as many workgroups are
    /// dispatched along each axis as cover the dimension, one deep.
    pub fn compute(&self, width: u32, height: u32, constants: &[u8]) -> (pass: ComputePass)
        ensures
            pass@ == compute_pass(self@, width, height, constants@),
            pass.workgroups.x == workgroup_count(width),
            pass.workgroups.y == workgroup_count(height),
            pass.workgroups.z == 1,
    {
        proof {
            use_type_invariant(self);
        }
        let count = self.bind_group_data.len();
        let group: usize = if self.settings.capabilities.has_push_constants {
            0
        } else {
            compute_constants_index(count)
        };
        let upload = self.upload(ShaderStages::compute_only(), group, constants);
        ComputePass {
            constants: upload,
            bind_groups: bind_all(count),
            workgroups: Workgroups {
                x: workgroups_along(width),
                y: workgroups_along(height),
                z: 1,
            },
        }
    }

    /// Describes the fragment pass on a surface: the target is cleared, the
    /// viewport has the size of the surface and lies below the strip of the
    /// control panel, the constants are uploaded, inline or into the buffer of
    /// the second to last bind group, every bind group is set at its index,
    /// and one triangle is drawn.
    pub fn render_shader(&self, surface: &SurfaceState, constants: &[u8]) -> (pass: ShaderPass)
        ensures
            pass@ == shader_pass(self@, *surface, constants@),
    {
        proof {
            use_type_invariant(self);
        }
        let count = self.bind_group_data.len();
        let group: usize = if self.settings.capabilities.has_push_constants {
            0
        } else {
            fragment_constants_index(count)
        };
        let upload = self.upload(ShaderStages::fragment_only(), group, constants);
        ShaderPass {
            encoder_label: Label::ShaderEncoder,
            pass_label: Label::ShaderRenderPass,
            load: LoadOp::Clear(Color::Green),
            store: true,
            viewport: Viewport {
                left: 0,
                top_points: self.settings.ui_strip_height,
                width: surface.width,
                height: surface.height,
                min_depth: 0,
                max_depth: 1,
            },
            constants: upload,
            bind_groups: bind_all(count),
            vertices: DrawRange { start: 0, end: 3 },
            instances: DrawRange { start: 0, end: 1 },
        }
    }

    /// Describes the overlay pass on a surface: it uploads the textures the
    /// control panel changed, draws the panel over what the target holds, and
    /// frees the textures the panel gave up.
    pub fn render_ui(
        &self,
        surface: &SurfaceState,
        update_textures: &[TextureId],
        free_textures: &[TextureId],
    ) -> (pass: UiPass)
        ensures
            pass@ == ui_pass(*surface, update_textures@, free_textures@),
    {
        UiPass {
            encoder_label: Label::UiEncoder,
            pass_label: Label::UiRenderPass,
            size_in_pixels: Extent { width: surface.width, height: surface.height },
            update_textures: slice_to_vec(update_textures),
            free_textures: slice_to_vec(free_textures),
            load: LoadOp::Load,
            store: true,
        }
    }

    /// Lists the steps of a frame whose acquisition gave `acquired`. A lost
    /// or outdated surface costs the frame and is configured again; only a
    /// failure that is not transient is returned as an error.
    pub fn render(
        &self,
        acquired: Result<(), SurfaceError>,
        surface: &SurfaceState,
        fragment_constants: &[u8],
    ) -> (result: Result<Vec<FrameStep>, SurfaceError>)
        ensures
            match result {
                Ok(steps) => frame(self@, acquired, *surface, fragment_constants@) == Ok::<
                    Seq<FrameStepView>,
                    SurfaceError,
                >(views(steps@)),
                Err(e) => frame(self@, acquired, *surface, fragment_constants@) == Err::<
                    Seq<FrameStepView>,
                    SurfaceError,
                >(e),
            },
    {
        let mut steps: Vec<FrameStep> = Vec::new();
        match acquired {
            Err(e) => {
                if !e.recovers() {
                    return Err(e);
                }
                let configure = if surface.is_drawable() {
                    Some(*surface)
                } else {
                    None
                };
                steps.push(FrameStep::Reconfigure(configure));
                assert(views(steps@) =~= seq![
                    FrameStepView::Reconfigure(surface.configuration()),
                ]);
            },
            Ok(()) => {
                if surface.is_drawable() {
                    steps.push(FrameStep::Shader(self.render_shader(surface, fragment_constants)));
                }
                steps.push(FrameStep::Overlay);
                steps.push(FrameStep::Present);
                assert(views(steps@) =~= if surface.drawable() {
                    seq![
                        FrameStepView::Shader(shader_pass(self@, *surface, fragment_constants@)),
                        FrameStepView::Overlay,
                        FrameStepView::Present,
                    ]
                } else {
                    seq![FrameStepView::Overlay, FrameStepView::Present]
                });
            },
        }
        Ok(steps)
    }

    /// Describes the pipelines this executor would have with a new shader
    /// binary, without taking them up. A binary that cannot be framed is
    /// reported.
    pub fn plan_module(&self, shader: &[u8]) -> (result: Result<PipelineSet, ShaderError>)
        ensures
            match result {
                Ok(set) => framing_error(shader@) is None && set@ == self@.with_module(
                    spirv_words(shader@),
                ).pipelines,
                Err(e) => framing_error(shader@) == Some(e),
            },
    {
        proof {
            use_type_invariant(self);
        }
        let layouts = self.pipelines.layouts();
        create_pipelines(&layouts, self.ui_renderer.output_color_format, shader)
    }

    /// Settles what becomes of planned pipelines once the device was asked to
    /// create them: accepted, they replace the pipelines in use; rejected,
    /// the pipelines in use stay. Layouts and bind groups stay either way.
    pub fn adopt_module(&mut self, set: PipelineSet, accepted: bool)
        requires
            set@ == old(self)@.with_module(set@.module).pipelines,
        ensures
            final(self)@ == if accepted {
                old(self)@.with_module(set@.module)
            } else {
                old(self)@
            },
            final(self)@.wf(),
    {
        proof {
            use_type_invariant(&*self);
        }
        if accepted {
            self.pipelines = set;
        }
    }

    /// Remakes the pipelines from a new shader binary. Layouts and bind groups
    /// stay as they are. A binary that cannot be framed is reported, and the
    /// pipelines made before stay in place.
    pub fn new_module(&mut self, shader: &[u8]) -> (result: Result<(), ShaderError>)
        ensures
            match result {
                Ok(()) => framing_error(shader@) is None && final(self)@ == old(self)@.with_module(
                    spirv_words(shader@),
                ),
                Err(e) => framing_error(shader@) == Some(e) && final(self)@ == old(self)@,
            },
            final(self)@.wf(),
    {
        proof {
            use_type_invariant(&*self);
        }
        match self.plan_module(shader) {
            Ok(set) => {
                self.adopt_module(set, true);
                Ok(())
            },
            Err(e) => Err(e),
        }
    }
}

} // verus!
