//! The bind-group builder: one layout, one buffer and one bind group for each
//! declared buffer, in declaration order, and after them the pair that carries
//! the scalar constants where they cannot be uploaded inline.
//!
//! Of the appended pair the fragment group always comes first and the compute
//! group last. Layouts, bind groups and the per-frame uploads all rest on
//! [`fragment_constants_group`] and [`compute_constants_group`] for that order.

use crate::descriptor::{
    views, BufferDescriptor, BufferDescriptorView, BufferKind, Capabilities, ConstantsLayout,
    Label, ShaderStages,
};
use vstd::prelude::*;

verus! {

/// The single entry of a bind-group layout.
#[derive(Clone, Copy, Debug, PartialEq, Eq)]
pub struct BindGroupLayoutEntry {
    pub binding: u32,
    pub visibility: ShaderStages,
    pub ty: BufferKind,
    pub has_dynamic_offset: bool,
    pub min_binding_size: Option<u64>,
    pub count: Option<u32>,
}

/// A bind-group layout to create: one buffer binding.
#[derive(Clone, Copy, Debug, PartialEq, Eq)]
pub struct BindGroupLayout {
    pub label: Label,
    pub entry: BindGroupLayoutEntry,
}

/// What a buffer may be used for.
#[derive(Clone, Copy, Debug, PartialEq, Eq, Structural)]
pub struct BufferUsages {
    pub storage: bool,
    pub uniform: bool,
    /// The buffer can be written from the CPU after its creation.
    pub copy_dst: bool,
}

/// A buffer to create, with the bytes it starts with.
#[derive(Clone, Debug, PartialEq, Eq)]
pub struct BufferInit {
    pub label: Label,
    pub contents: Vec<u8>,
    pub usage: BufferUsages,
}

/// The mathematical value of a [`BufferInit`].
pub struct BufferInitView {
    pub label: Label,
    pub contents: Seq<u8>,
    pub usage: BufferUsages,
}

impl View for BufferInit {
    type V = BufferInitView;

    open spec fn view(&self) -> BufferInitView {
        BufferInitView { label: self.label, contents: self.contents@, usage: self.usage }
    }
}

/// A bind group to create: the whole of one buffer, bound at one index of one
/// layout. `layout` is a position in the sequence of layouts and `buffer` a
/// position in the sequence of bind-group data, whose buffer is meant.
#[derive(Clone, Copy, Debug, PartialEq, Eq)]
pub struct BindGroup {
    pub label: Label,
    pub layout: usize,
    pub binding: u32,
    pub buffer: usize,
}

/// A bind group together with the buffer created for it.
#[derive(Clone, Debug, PartialEq, Eq)]
pub struct BindGroupData {
    pub buffer: BufferInit,
    pub bind_group: BindGroup,
}

/// The mathematical value of a [`BindGroupData`].
pub struct BindGroupDataView {
    pub buffer: BufferInitView,
    pub bind_group: BindGroup,
}

impl View for BindGroupData {
    type V = BindGroupDataView;

    open spec fn view(&self) -> BindGroupDataView {
        BindGroupDataView { buffer: self.buffer@, bind_group: self.bind_group }
    }
}

/// A layout entry for a buffer at binding 0, without dynamic offset, minimum
/// size or array count.
pub open spec fn buffer_entry(visibility: ShaderStages, ty: BufferKind) -> BindGroupLayoutEntry {
    BindGroupLayoutEntry {
        binding: 0,
        visibility,
        ty,
        has_dynamic_offset: false,
        min_binding_size: None,
        count: None,
    }
}

/// The layout of the `i`-th declared buffer.
pub open spec fn descriptor_layout(descriptor: BufferDescriptorView, i: int) -> BindGroupLayout {
    BindGroupLayout {
        label: Label::BindGroupLayout(i as usize),
        entry: buffer_entry(descriptor.visible_stages, descriptor.buffer_kind),
    }
}

/// The layout of the group that carries the fragment constants.
pub open spec fn fragment_constants_layout() -> BindGroupLayout {
    BindGroupLayout {
        label: Label::EmulatedFragmentConstantsLayout,
        entry: buffer_entry(
            ShaderStages { compute: false, fragment: true },
            BufferKind::Storage { read_only: true },
        ),
    }
}

/// The layout of the group that carries the compute constants.
pub open spec fn compute_constants_layout() -> BindGroupLayout {
    BindGroupLayout {
        label: Label::EmulatedComputeConstantsLayout,
        entry: buffer_entry(
            ShaderStages { compute: true, fragment: false },
            BufferKind::Storage { read_only: true },
        ),
    }
}

/// Position of the fragment-constants group among `count` groups that end in
/// the appended pair: the second to last.
pub open spec fn fragment_constants_group(count: int) -> int {
    count - 2
}

/// Position of the compute-constants group among `count` groups that end in
/// the appended pair: the last.
pub open spec fn compute_constants_group(count: int) -> int {
    count - 1
}

/// Position of the fragment-constants group among `count` groups that end in
/// the appended pair.
pub fn fragment_constants_index(count: usize) -> (position: usize)
    requires
        count >= 2,
    ensures
        position == fragment_constants_group(count as int),
{
    count - 2
}

/// Position of the compute-constants group among `count` groups that end in
/// the appended pair.
pub fn compute_constants_index(count: usize) -> (position: usize)
    requires
        count >= 2,
    ensures
        position == compute_constants_group(count as int),
{
    count - 1
}

/// The layouts for a sequence of declared buffers.
pub open spec fn bind_group_layouts(
    descriptors: Seq<BufferDescriptorView>,
    capabilities: Capabilities,
) -> Seq<BindGroupLayout> {
    let declared = Seq::new(descriptors.len(), |i: int| descriptor_layout(descriptors[i], i));
    if capabilities.emulates_constants() {
        declared.push(fragment_constants_layout()).push(compute_constants_layout())
    } else {
        declared
    }
}

/// What a buffer of the given kind is used for.
pub open spec fn usages_of(kind: BufferKind) -> BufferUsages {
    match kind {
        BufferKind::Storage { .. } => BufferUsages { storage: true, uniform: false, copy_dst: false },
        BufferKind::Uniform => BufferUsages { storage: false, uniform: true, copy_dst: true },
    }
}

/// The buffer and bind group of the `i`-th declared buffer.
pub open spec fn descriptor_bind_group(descriptor: BufferDescriptorView, i: int) -> BindGroupDataView {
    BindGroupDataView {
        buffer: BufferInitView {
            label: Label::BindGroupBuffer,
            contents: descriptor.initial_bytes,
            usage: usages_of(descriptor.buffer_kind),
        },
        bind_group: BindGroup {
            label: Label::BindGroup(i as usize),
            layout: i as usize,
            binding: 0,
            buffer: i as usize,
        },
    }
}

/// The zero-filled, CPU-writable storage buffer of `size` bytes that stands in
/// for a push-constant range, as the `position`-th group, bound to the layout
/// at `layout`.
pub open spec fn constants_bind_group(
    label: Label,
    size: u32,
    layout: int,
    position: int,
) -> BindGroupDataView {
    BindGroupDataView {
        buffer: BufferInitView {
            label: Label::Unnamed,
            contents: Seq::new(size as nat, |i: int| 0u8),
            usage: BufferUsages { storage: true, uniform: false, copy_dst: true },
        },
        bind_group: BindGroup {
            label,
            layout: layout as usize,
            binding: 0,
            buffer: position as usize,
        },
    }
}

/// How many declared buffers get a bind group when `layouts` layouts are at
/// hand: each descriptor is paired with the layout at its own position.
pub open spec fn paired_count(descriptors: int, layouts: int) -> int {
    if descriptors <= layouts {
        descriptors
    } else {
        layouts
    }
}

/// The buffers and bind groups for a sequence of declared buffers, given the
/// number of layouts that were created.
pub open spec fn bind_groups(
    descriptors: Seq<BufferDescriptorView>,
    layouts: int,
    capabilities: Capabilities,
    constants: ConstantsLayout,
) -> Seq<BindGroupDataView> {
    let n = paired_count(descriptors.len() as int, layouts);
    let declared = Seq::new(n as nat, |i: int| descriptor_bind_group(descriptors[i], i));
    if capabilities.emulates_constants() {
        declared.push(
            constants_bind_group(
                Label::EmulatedFragmentConstantsBindGroup,
                constants.fragment_size,
                fragment_constants_group(layouts),
                fragment_constants_group(n + 2),
            ),
        ).push(
            constants_bind_group(
                Label::EmulatedComputeConstantsBindGroup,
                constants.compute_size,
                compute_constants_group(layouts),
                compute_constants_group(n + 2),
            ),
        )
    } else {
        declared
    }
}

fn buffer_entry_of(visibility: ShaderStages, ty: BufferKind) -> (entry: BindGroupLayoutEntry)
    ensures
        entry == buffer_entry(visibility, ty),
{
    BindGroupLayoutEntry {
        binding: 0,
        visibility,
        ty,
        has_dynamic_offset: false,
        min_binding_size: None,
        count: None,
    }
}

/// Describes one bind-group layout per descriptor, in the same order, each
/// with a single binding at index 0 of the descriptor's kind and visibility,
/// followed by the fragment- and compute-constants layouts where constants are
/// emulated.
pub fn create_bind_group_layouts(
    descriptors: &[BufferDescriptor],
    capabilities: Capabilities,
) -> (layouts: Vec<BindGroupLayout>)
    ensures
        layouts@ == bind_group_layouts(views(descriptors@), capabilities),
{
    let mut layouts: Vec<BindGroupLayout> = Vec::new();
    let mut i: usize = 0;
    while i < descriptors.len()
        invariant
            i <= descriptors.len(),
            layouts@ == Seq::new(
                i as nat,
                |j: int| descriptor_layout(views(descriptors@)[j], j),
            ),
        decreases descriptors.len() - i,
    {
        let descriptor = &descriptors[i];
        layouts.push(
            BindGroupLayout {
                label: Label::BindGroupLayout(i),
                entry: buffer_entry_of(descriptor.visible_stages, descriptor.buffer_kind),
            },
        );
        i += 1;
    }
    if !capabilities.has_push_constants {
        layouts.push(
            BindGroupLayout {
                label: Label::EmulatedFragmentConstantsLayout,
                entry: buffer_entry_of(
                    ShaderStages::fragment_only(),
                    BufferKind::Storage { read_only: true },
                ),
            },
        );
        layouts.push(
            BindGroupLayout {
                label: Label::EmulatedComputeConstantsLayout,
                entry: buffer_entry_of(
                    ShaderStages::compute_only(),
                    BufferKind::Storage { read_only: true },
                ),
            },
        );
    }
    layouts
}

fn usages(kind: BufferKind) -> (usage: BufferUsages)
    ensures
        usage == usages_of(kind),
{
    match kind {
        BufferKind::Storage { .. } => BufferUsages { storage: true, uniform: false, copy_dst: false },
        BufferKind::Uniform => BufferUsages { storage: false, uniform: true, copy_dst: true },
    }
}

fn constants_bind_group_of(label: Label, size: u32, layout: usize, position: usize) -> (data:
    BindGroupData)
    ensures
        data@ == constants_bind_group(label, size, layout as int, position as int),
{
    let contents: Vec<u8> = vec![0u8; size as usize];
    assert(contents@ =~= Seq::new(size as nat, |i: int| 0u8));
    BindGroupData {
        buffer: BufferInit {
            label: Label::Unnamed,
            contents,
            usage: BufferUsages { storage: true, uniform: false, copy_dst: true },
        },
        bind_group: BindGroup { label, layout, binding: 0, buffer: position },
    }
}

/// Describes, for each descriptor that has a layout at its position, a buffer
/// holding the descriptor's initial bytes and a bind group that binds the whole
/// of it at index 0 of that layout. Where constants are emulated, two more
/// follow, bound to the last two layouts: a zeroed buffer of the size of the
/// fragment constants, then one of the size of the compute constants.
pub fn maybe_create_bind_groups(
    descriptors: &[BufferDescriptor],
    layouts: &[BindGroupLayout],
    capabilities: Capabilities,
    constants: ConstantsLayout,
) -> (data: Vec<BindGroupData>)
    requires
        capabilities.emulates_constants() ==> layouts.len() >= 2,
    ensures
        views(data@) == bind_groups(
            views(descriptors@),
            layouts.len() as int,
            capabilities,
            constants,
        ),
{
    let n: usize = if descriptors.len() <= layouts.len() {
        descriptors.len()
    } else {
        layouts.len()
    };
    let mut data: Vec<BindGroupData> = Vec::new();
    let mut i: usize = 0;
    while i < n
        invariant
            i <= n,
            n <= descriptors.len(),
            views(data@) == Seq::new(
                i as nat,
                |j: int| descriptor_bind_group(views(descriptors@)[j], j),
            ),
        decreases n - i,
    {
        let descriptor = &descriptors[i];
        let contents: Vec<u8> = descriptor.initial_bytes.clone();
        assert(contents@ =~= descriptor.initial_bytes@);
        let item = BindGroupData {
            buffer: BufferInit {
                label: Label::BindGroupBuffer,
                contents,
                usage: usages(descriptor.buffer_kind),
            },
            bind_group: BindGroup { label: Label::BindGroup(i), layout: i, binding: 0, buffer: i },
        };
        let ghost earlier = views(data@);
        data.push(item);
        assert(views(data@) =~= earlier.push(
            descriptor_bind_group(views(descriptors@)[i as int], i as int),
        ));
        i += 1;
    }
    if !capabilities.has_push_constants {
        let ghost declared = views(data@);
        let fragment = constants_bind_group_of(
            Label::EmulatedFragmentConstantsBindGroup,
            constants.fragment_size,
            fragment_constants_index(layouts.len()),
            data.len(),
        );
        data.push(fragment);
        assert(views(data@) =~= declared.push(fragment@));
        let compute = constants_bind_group_of(
            Label::EmulatedComputeConstantsBindGroup,
            constants.compute_size,
            compute_constants_index(layouts.len()),
            data.len(),
        );
        data.push(compute);
        assert(views(data@) =~= declared.push(fragment@).push(compute@));
    }
    data
}

} // verus!
