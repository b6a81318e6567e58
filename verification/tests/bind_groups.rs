use runner::bind_group::{
    compute_constants_index, create_bind_group_layouts, fragment_constants_index,
    maybe_create_bind_groups, BindGroup, BindGroupLayout, BindGroupLayoutEntry, BufferUsages,
};
use runner::descriptor::{
    BufferDescriptor, BufferKind, Capabilities, ConstantsLayout, Label, Settings, ShaderStages,
};
use runner::frame::RenderPass;

const MODULE: [u8; 4] = [0x03, 0x02, 0x23, 0x07];

fn native() -> Capabilities {
    Capabilities { has_push_constants: true, supports_runtime_shader_path: true }
}

fn emulating() -> Capabilities {
    Capabilities { has_push_constants: false, supports_runtime_shader_path: false }
}

fn constants() -> ConstantsLayout {
    ConstantsLayout { fragment_size: 12, compute_size: 20 }
}

fn settings(capabilities: Capabilities) -> Settings {
    Settings { capabilities, constants: constants(), ui_strip_height: 30 }
}

fn storage_and_uniform() -> Vec<BufferDescriptor> {
    vec![
        BufferDescriptor {
            buffer_kind: BufferKind::Storage { read_only: false },
            visible_stages: ShaderStages::compute_only(),
            initial_bytes: vec![1, 2, 3, 4, 5, 6, 7, 8],
        },
        BufferDescriptor {
            buffer_kind: BufferKind::Uniform,
            visible_stages: ShaderStages::fragment_only(),
            initial_bytes: vec![9, 10, 11, 12],
        },
    ]
}

fn entry(visibility: ShaderStages, ty: BufferKind) -> BindGroupLayoutEntry {
    BindGroupLayoutEntry {
        binding: 0,
        visibility,
        ty,
        has_dynamic_offset: false,
        min_binding_size: None,
        count: None,
    }
}

#[test]
fn layouts_follow_the_descriptors() {
    let layouts = create_bind_group_layouts(&storage_and_uniform(), native());
    assert_eq!(
        layouts,
        vec![
            BindGroupLayout {
                label: Label::BindGroupLayout(0),
                entry: entry(
                    ShaderStages::compute_only(),
                    BufferKind::Storage { read_only: false }
                ),
            },
            BindGroupLayout {
                label: Label::BindGroupLayout(1),
                entry: entry(ShaderStages::fragment_only(), BufferKind::Uniform),
            },
        ]
    );
}

#[test]
fn read_only_storage_and_both_stages_are_kept() {
    let both = ShaderStages { compute: true, fragment: true };
    let descriptors = vec![BufferDescriptor {
        buffer_kind: BufferKind::Storage { read_only: true },
        visible_stages: both,
        initial_bytes: vec![],
    }];
    let layouts = create_bind_group_layouts(&descriptors, native());
    assert_eq!(layouts.len(), 1);
    assert_eq!(layouts[0].entry, entry(both, BufferKind::Storage { read_only: true }));
}

#[test]
fn emulation_appends_fragment_then_compute_layout() {
    let layouts = create_bind_group_layouts(&storage_and_uniform(), emulating());
    assert_eq!(layouts.len(), 4);
    assert_eq!(layouts[0].label, Label::BindGroupLayout(0));
    assert_eq!(layouts[1].label, Label::BindGroupLayout(1));
    assert_eq!(
        layouts[2],
        BindGroupLayout {
            label: Label::EmulatedFragmentConstantsLayout,
            entry: entry(ShaderStages::fragment_only(), BufferKind::Storage { read_only: true }),
        }
    );
    assert_eq!(
        layouts[3],
        BindGroupLayout {
            label: Label::EmulatedComputeConstantsLayout,
            entry: entry(ShaderStages::compute_only(), BufferKind::Storage { read_only: true }),
        }
    );
}

#[test]
fn fragment_constants_come_before_compute_constants() {
    assert_eq!(fragment_constants_index(2), 0);
    assert_eq!(compute_constants_index(2), 1);
    assert_eq!(fragment_constants_index(4), 2);
    assert_eq!(compute_constants_index(4), 3);
    let layouts = create_bind_group_layouts(&storage_and_uniform(), emulating());
    assert_eq!(
        layouts[fragment_constants_index(layouts.len())].label,
        Label::EmulatedFragmentConstantsLayout
    );
    assert_eq!(
        layouts[compute_constants_index(layouts.len())].label,
        Label::EmulatedComputeConstantsLayout
    );
}

#[test]
fn no_descriptors_give_no_layouts_natively() {
    assert!(create_bind_group_layouts(&[], native()).is_empty());
    assert_eq!(create_bind_group_layouts(&[], emulating()).len(), 2);
}

#[test]
fn bind_groups_follow_the_descriptors() {
    let descriptors = storage_and_uniform();
    let layouts = create_bind_group_layouts(&descriptors, native());
    let data = maybe_create_bind_groups(&descriptors, &layouts, native(), constants());
    assert_eq!(data.len(), 2);

    assert_eq!(data[0].buffer.label, Label::BindGroupBuffer);
    assert_eq!(data[0].buffer.contents, vec![1, 2, 3, 4, 5, 6, 7, 8]);
    assert_eq!(
        data[0].buffer.usage,
        BufferUsages { storage: true, uniform: false, copy_dst: false }
    );
    assert_eq!(
        data[0].bind_group,
        BindGroup { label: Label::BindGroup(0), layout: 0, binding: 0, buffer: 0 }
    );

    assert_eq!(data[1].buffer.contents, vec![9, 10, 11, 12]);
    assert_eq!(
        data[1].buffer.usage,
        BufferUsages { storage: false, uniform: true, copy_dst: true }
    );
    assert_eq!(
        data[1].bind_group,
        BindGroup { label: Label::BindGroup(1), layout: 1, binding: 0, buffer: 1 }
    );
}

#[test]
fn emulation_appends_zeroed_constants_buffers() {
    let descriptors = storage_and_uniform();
    let layouts = create_bind_group_layouts(&descriptors, emulating());
    let data = maybe_create_bind_groups(&descriptors, &layouts, emulating(), constants());
    assert_eq!(data.len(), 4);
    let writable = BufferUsages { storage: true, uniform: false, copy_dst: true };

    assert_eq!(data[2].buffer.label, Label::Unnamed);
    assert_eq!(data[2].buffer.contents, vec![0u8; 12]);
    assert_eq!(data[2].buffer.usage, writable);
    assert_eq!(
        data[2].bind_group,
        BindGroup {
            label: Label::EmulatedFragmentConstantsBindGroup,
            layout: 2,
            binding: 0,
            buffer: 2
        }
    );

    assert_eq!(data[3].buffer.contents, vec![0u8; 20]);
    assert_eq!(data[3].buffer.usage, writable);
    assert_eq!(
        data[3].bind_group,
        BindGroup {
            label: Label::EmulatedComputeConstantsBindGroup,
            layout: 3,
            binding: 0,
            buffer: 3
        }
    );
}

#[test]
fn descriptors_without_a_layout_get_no_bind_group() {
    let descriptors = storage_and_uniform();
    let layouts = create_bind_group_layouts(&descriptors[..1], native());
    let data = maybe_create_bind_groups(&descriptors, &layouts, native(), constants());
    assert_eq!(data.len(), 1);
    assert_eq!(data[0].bind_group.layout, 0);

    // With emulation the last two layouts belong to the constants.
    let layouts = create_bind_group_layouts(&[], emulating());
    let data = maybe_create_bind_groups(&descriptors, &layouts, emulating(), constants());
    assert_eq!(data.len(), 4);
    assert_eq!(data[0].bind_group.layout, 0);
    assert_eq!(data[1].bind_group.layout, 1);
    assert_eq!(data[2].bind_group.layout, 0);
    assert_eq!(data[3].bind_group.layout, 1);
}

fn assert_groups_in_order_and_distinct(pass: &RenderPass, expected: usize) {
    let data = pass.bind_group_data();
    assert_eq!(data.len(), expected);
    let layouts = &pass.pipelines().render_layout.bind_group_layouts;
    assert_eq!(layouts.len(), expected);
    assert_eq!(&pass.pipelines().compute_layout.bind_group_layouts, layouts);
    for (i, item) in data.iter().enumerate() {
        assert_eq!(item.bind_group.buffer, i);
        assert_eq!(item.bind_group.layout, i);
        assert_eq!(item.bind_group.binding, layouts[i].entry.binding);
        match layouts[i].entry.ty {
            BufferKind::Storage { .. } => assert!(item.buffer.usage.storage),
            BufferKind::Uniform => assert!(item.buffer.usage.uniform),
        }
    }
    for i in 0..data.len() {
        for j in 0..i {
            assert_ne!(data[i].bind_group.buffer, data[j].bind_group.buffer);
        }
    }
}

#[test]
fn executor_with_storage_and_uniform_has_two_bind_groups() {
    let format = wgpu::TextureFormat::Bgra8Unorm;
    let pass =
        RenderPass::new(&storage_and_uniform(), settings(native()), format, &MODULE).unwrap();
    assert_groups_in_order_and_distinct(&pass, 2);
    let data = pass.bind_group_data();
    assert_eq!(data[0].bind_group.label, Label::BindGroup(0));
    assert_eq!(data[0].buffer.contents, vec![1, 2, 3, 4, 5, 6, 7, 8]);
    assert_eq!(data[1].bind_group.label, Label::BindGroup(1));
    assert_eq!(data[1].buffer.contents, vec![9, 10, 11, 12]);
    let layouts = &pass.pipelines().render_layout.bind_group_layouts;
    assert_eq!(layouts[0].entry.ty, BufferKind::Storage { read_only: false });
    assert_eq!(layouts[0].entry.visibility, ShaderStages::compute_only());
    assert_eq!(layouts[1].entry.ty, BufferKind::Uniform);
    assert_eq!(layouts[1].entry.visibility, ShaderStages::fragment_only());
}

#[test]
fn emulating_executor_with_storage_and_uniform_has_four_bind_groups() {
    let format = wgpu::TextureFormat::Bgra8Unorm;
    let pass =
        RenderPass::new(&storage_and_uniform(), settings(emulating()), format, &MODULE).unwrap();
    assert_groups_in_order_and_distinct(&pass, 4);
    let data = pass.bind_group_data();
    assert_eq!(data[0].bind_group.label, Label::BindGroup(0));
    assert_eq!(data[1].bind_group.label, Label::BindGroup(1));
    assert_eq!(data[2].bind_group.label, Label::EmulatedFragmentConstantsBindGroup);
    assert_eq!(data[3].bind_group.label, Label::EmulatedComputeConstantsBindGroup);
    assert_eq!(data[2].buffer.contents.len(), 12);
    assert_eq!(data[3].buffer.contents.len(), 20);
}
