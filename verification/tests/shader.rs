use runner::pipeline::{
    create_pipeline_layouts, create_pipelines, ColorWrites, EntryPoint, FrontFace, PolygonMode,
    PrimitiveTopology, PushConstantRange,
};
use runner::bind_group::create_bind_group_layouts;
use runner::descriptor::{
    BufferDescriptor, BufferKind, Capabilities, ConstantsLayout, Label, ShaderStages,
};
use runner::shader::{parse_shader, ShaderError, SPIRV_MAGIC};

fn little_endian_module() -> Vec<u8> {
    vec![
        0x03, 0x02, 0x23, 0x07, // magic
        0x00, 0x00, 0x01, 0x00, // version 1.0
        0x0b, 0x00, 0x0d, 0x00, // generator
        0x2a, 0x00, 0x00, 0x00, // bound
        0x00, 0x00, 0x00, 0x00, // schema
    ]
}

fn big_endian_module() -> Vec<u8> {
    vec![
        0x07, 0x23, 0x02, 0x03, // magic
        0x00, 0x01, 0x00, 0x00, // version 1.0
        0x00, 0x0d, 0x00, 0x0b, // generator
        0x00, 0x00, 0x00, 0x2a, // bound
        0x00, 0x00, 0x00, 0x00, // schema
    ]
}

const WORDS: [u32; 5] = [0x0723_0203, 0x0001_0000, 0x000d_000b, 42, 0];

fn native() -> Capabilities {
    Capabilities { has_push_constants: true, supports_runtime_shader_path: true }
}

fn emulating() -> Capabilities {
    Capabilities { has_push_constants: false, supports_runtime_shader_path: false }
}

#[test]
fn magic_number_is_the_spirv_one() {
    assert_eq!(SPIRV_MAGIC, 0x0723_0203);
}

#[test]
fn little_endian_stream_is_framed_into_words() {
    let module = parse_shader(&little_endian_module()).unwrap();
    assert_eq!(module.words, WORDS.to_vec());
}

#[test]
fn big_endian_stream_is_framed_into_the_same_words() {
    let module = parse_shader(&big_endian_module()).unwrap();
    assert_eq!(module.words, WORDS.to_vec());
}

#[test]
fn words_do_not_depend_on_where_the_stream_lies() {
    // At least three of four consecutive addresses are not aligned to a word.
    for start in 0..4usize {
        let mut storage = vec![0xffu8; start];
        storage.extend_from_slice(&little_endian_module());
        assert_eq!(parse_shader(&storage[start..]).unwrap().words, WORDS.to_vec());
        let mut storage = vec![0xffu8; start];
        storage.extend_from_slice(&big_endian_module());
        assert_eq!(parse_shader(&storage[start..]).unwrap().words, WORDS.to_vec());
    }
}

#[test]
fn header_only_stream_is_one_word() {
    let module = parse_shader(&[0x03, 0x02, 0x23, 0x07]).unwrap();
    assert_eq!(module.words, vec![0x0723_0203]);
}

#[test]
fn empty_stream_is_rejected() {
    assert_eq!(parse_shader(&[]), Err(ShaderError::Empty));
}

#[test]
fn stream_of_odd_length_is_rejected() {
    assert_eq!(parse_shader(&[0x03, 0x02, 0x23, 0x07, 0x00]), Err(ShaderError::Misaligned));
    assert_eq!(parse_shader(&[0x03]), Err(ShaderError::Misaligned));
    assert_eq!(parse_shader(&[0x03, 0x02, 0x23]), Err(ShaderError::Misaligned));
}

#[test]
fn stream_without_magic_is_rejected() {
    assert_eq!(parse_shader(&[0x00, 0x00, 0x00, 0x00]), Err(ShaderError::BadMagic));
    assert_eq!(parse_shader(&[0x03, 0x02, 0x23, 0x08]), Err(ShaderError::BadMagic));
    // The magic number must come first.
    assert_eq!(
        parse_shader(&[0x00, 0x00, 0x00, 0x00, 0x03, 0x02, 0x23, 0x07]),
        Err(ShaderError::BadMagic)
    );
    // Text is no binary module.
    assert_eq!(parse_shader(b"#version 450\n   "), Err(ShaderError::BadMagic));
}

#[test]
fn entry_points_have_their_names() {
    assert_eq!(EntryPoint::Vertex.name(), "main_vs");
    assert_eq!(EntryPoint::Fragment.name(), "main_fs");
    assert_eq!(EntryPoint::Compute.name(), "main_cs");
    assert_ne!(EntryPoint::Compute.name(), EntryPoint::Vertex.name());
    assert_ne!(EntryPoint::Compute.name(), EntryPoint::Fragment.name());
}

#[test]
fn native_pipeline_layouts_reserve_push_constant_ranges() {
    let descriptors = vec![BufferDescriptor {
        buffer_kind: BufferKind::Uniform,
        visible_stages: ShaderStages::fragment_only(),
        initial_bytes: vec![0; 16],
    }];
    let groups = create_bind_group_layouts(&descriptors, native());
    let constants = ConstantsLayout { fragment_size: 48, compute_size: 24 };
    let layouts = create_pipeline_layouts(&groups, native(), constants);
    assert_eq!(
        layouts.render.push_constant_ranges,
        vec![PushConstantRange { stages: ShaderStages::fragment_only(), start: 0, end: 48 }]
    );
    assert_eq!(
        layouts.compute.push_constant_ranges,
        vec![PushConstantRange { stages: ShaderStages::compute_only(), start: 0, end: 24 }]
    );
    assert_eq!(layouts.render.bind_group_layouts, groups);
    assert_eq!(layouts.compute.bind_group_layouts, groups);
    assert_eq!(layouts.render.label, Label::Unnamed);
}

#[test]
fn emulating_pipeline_layouts_reserve_no_push_constant_ranges() {
    let groups = create_bind_group_layouts(&[], emulating());
    let constants = ConstantsLayout { fragment_size: 48, compute_size: 24 };
    let layouts = create_pipeline_layouts(&groups, emulating(), constants);
    assert!(layouts.render.push_constant_ranges.is_empty());
    assert!(layouts.compute.push_constant_ranges.is_empty());
    assert_eq!(layouts.render.bind_group_layouts.len(), 2);
    assert_eq!(layouts.compute.bind_group_layouts, groups);
}

#[test]
fn pipelines_are_made_as_described() {
    let groups = create_bind_group_layouts(&[], native());
    let constants = ConstantsLayout { fragment_size: 8, compute_size: 4 };
    let layouts = create_pipeline_layouts(&groups, native(), constants);
    let format = wgpu::TextureFormat::Bgra8UnormSrgb;
    let set = create_pipelines(&layouts, format, &little_endian_module()).unwrap();
    assert_eq!(set.module.words, WORDS.to_vec());
    assert_eq!(set.render_layout, layouts.render);
    assert_eq!(set.compute_layout, layouts.compute);

    let render = set.render_pipeline;
    assert_eq!(render.vertex_entry_point, EntryPoint::Vertex);
    assert_eq!(render.fragment_entry_point, EntryPoint::Fragment);
    assert_eq!(render.vertex_buffers, 0);
    assert_eq!(render.primitive.topology, PrimitiveTopology::TriangleList);
    assert_eq!(render.primitive.front_face, FrontFace::Ccw);
    assert_eq!(render.primitive.cull_mode, None);
    assert_eq!(render.primitive.polygon_mode, PolygonMode::Fill);
    assert!(!render.primitive.unclipped_depth);
    assert!(!render.primitive.conservative);
    assert!(!render.depth_stencil);
    assert_eq!(render.multisample.count, 1);
    assert_eq!(render.multisample.mask, !0);
    assert!(!render.multisample.alpha_to_coverage_enabled);
    assert_eq!(render.target.format, format);
    assert!(!render.target.blend);
    assert_eq!(
        render.target.write_mask,
        ColorWrites { red: true, green: true, blue: true, alpha: true }
    );
    assert_eq!(render.multiview, None);
    assert!(!render.cache);

    assert_eq!(set.compute_pipeline.entry_point, EntryPoint::Compute);
    assert!(!set.compute_pipeline.cache);
}

#[test]
fn malformed_shader_makes_no_pipelines() {
    let groups = create_bind_group_layouts(&[], native());
    let constants = ConstantsLayout { fragment_size: 8, compute_size: 4 };
    let layouts = create_pipeline_layouts(&groups, native(), constants);
    let format = wgpu::TextureFormat::Rgba8Unorm;
    assert_eq!(create_pipelines(&layouts, format, &[1, 2, 3, 4]), Err(ShaderError::BadMagic));
    assert_eq!(create_pipelines(&layouts, format, &[]), Err(ShaderError::Empty));
    assert_eq!(create_pipelines(&layouts, format, &[3, 2, 0x23]), Err(ShaderError::Misaligned));
}

#[test]
fn pipeline_set_hands_out_its_layouts() {
    let groups = create_bind_group_layouts(&[], emulating());
    let constants = ConstantsLayout { fragment_size: 8, compute_size: 4 };
    let layouts = create_pipeline_layouts(&groups, emulating(), constants);
    let format = wgpu::TextureFormat::Rgba8Unorm;
    let set = create_pipelines(&layouts, format, &big_endian_module()).unwrap();
    assert_eq!(set.layouts(), layouts);
    let native_layouts = create_pipeline_layouts(&groups, native(), constants);
    let set = create_pipelines(&native_layouts, format, &big_endian_module()).unwrap();
    assert_eq!(set.layouts(), native_layouts);
}
