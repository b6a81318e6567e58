//! The resource descriptor model: what a shader program declares about each
//! data buffer it needs, and what the host environment is capable of.

use vstd::prelude::*;

verus! {

/// The shader stages a binding is visible to.
#[derive(Clone, Copy, Debug, PartialEq, Eq, Structural)]
pub struct ShaderStages {
    pub compute: bool,
    pub fragment: bool,
}

impl ShaderStages {
    /// Visible to the compute stage only.
    pub fn compute_only() -> (stages: ShaderStages)
        ensures
            stages == (ShaderStages { compute: true, fragment: false }),
    {
        ShaderStages { compute: true, fragment: false }
    }

    /// Visible to the fragment stage only.
    pub fn fragment_only() -> (stages: ShaderStages)
        ensures
            stages == (ShaderStages { compute: false, fragment: true }),
    {
        ShaderStages { compute: false, fragment: true }
    }
}

/// How a buffer is bound.
#[derive(Clone, Copy, Debug, PartialEq, Eq, Structural)]
pub enum BufferKind {
    Storage { read_only: bool },
    Uniform,
}

/// One data buffer of the shader program. The position of a descriptor in its
/// sequence is the index of the bind group both passes find the buffer at.
#[derive(Clone, Debug, PartialEq, Eq)]
pub struct BufferDescriptor {
    pub buffer_kind: BufferKind,
    pub visible_stages: ShaderStages,
    pub initial_bytes: Vec<u8>,
}

/// The mathematical value of a [`BufferDescriptor`].
pub struct BufferDescriptorView {
    pub buffer_kind: BufferKind,
    pub visible_stages: ShaderStages,
    pub initial_bytes: Seq<u8>,
}

impl View for BufferDescriptor {
    type V = BufferDescriptorView;

    open spec fn view(&self) -> BufferDescriptorView {
        BufferDescriptorView {
            buffer_kind: self.buffer_kind,
            visible_stages: self.visible_stages,
            initial_bytes: self.initial_bytes@,
        }
    }
}

/// The views of a sequence of values, in order.
pub open spec fn views<T: View>(items: Seq<T>) -> Seq<T::V> {
    Seq::new(items.len(), |i: int| items[i]@)
}

/// What the host environment offers, resolved once at startup.
#[derive(Clone, Copy, Debug, PartialEq, Eq, Structural)]
pub struct Capabilities {
    /// Scalar constants can be uploaded inline with a draw or dispatch.
    pub has_push_constants: bool,
    /// A shader binary can be loaded from a path while the program runs; this
    /// is the case outside a browser.
    pub supports_runtime_shader_path: bool,
}

impl Capabilities {
    /// Scalar constants travel through two dedicated storage buffers.
    pub open spec fn emulates_constants(&self) -> bool {
        !self.has_push_constants
    }
}

/// Sizes in bytes of the two scalar-constants structs of the shader program.
#[derive(Clone, Copy, Debug, PartialEq, Eq, Structural)]
pub struct ConstantsLayout {
    pub fragment_size: u32,
    pub compute_size: u32,
}

/// Everything the frame executor is configured with.
#[derive(Clone, Copy, Debug, PartialEq, Eq, Structural)]
pub struct Settings {
    pub capabilities: Capabilities,
    pub constants: ConstantsLayout,
    /// Height, in logical points, of the strip at the top of the surface that
    /// belongs to the control panel.
    pub ui_strip_height: u32,
}

/// A debugging name attached to a created object or a recorded pass.
#[derive(Clone, Copy, Debug, PartialEq, Eq, Structural)]
pub enum Label {
    Unnamed,
    /// The layout of the bind group at this index.
    BindGroupLayout(usize),
    /// The bind group at this index.
    BindGroup(usize),
    BindGroupBuffer,
    EmulatedFragmentConstantsLayout,
    EmulatedComputeConstantsLayout,
    EmulatedFragmentConstantsBindGroup,
    EmulatedComputeConstantsBindGroup,
    ShaderEncoder,
    ShaderRenderPass,
    UiEncoder,
    UiRenderPass,
}

} // verus!
