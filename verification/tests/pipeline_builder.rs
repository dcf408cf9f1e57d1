use gpu_core::pipeline::{
    alpha_blend, build, build_pair, format_size, BlendFactor, BlendOp, FillMode, PipelineConfig,
    PipelineError, VertexAttribute, VertexFormat, VertexLayout,
};
use gpu_core::shader::{ShaderObject, ShaderStage};

fn shader(stage: ShaderStage) -> ShaderObject {
    ShaderObject {
        stage,
        code: vec![1, 2, 3, 4],
        sampler_count: 0,
        uniform_buffer_count: 1,
        storage_buffer_count: 0,
        storage_texture_count: 0,
    }
}

fn attribute(location: u32, format: VertexFormat, offset: u32) -> VertexAttribute {
    VertexAttribute { location, buffer_slot: 0, format, offset }
}

/// The layout of the demo vertex record: position, color, and the two
/// rectangle corners, ten floats in all.
fn demo_layout() -> VertexLayout {
    VertexLayout {
        stride: 40,
        attributes: vec![
            attribute(0, VertexFormat::Float2, 0),
            attribute(1, VertexFormat::Float4, 8),
            attribute(2, VertexFormat::Float2, 24),
            attribute(3, VertexFormat::Float2, 32),
        ],
    }
}

fn demo_config(layout: VertexLayout) -> PipelineConfig {
    PipelineConfig {
        vertex_shader: shader(ShaderStage::Vertex),
        fragment_shader: shader(ShaderStage::Fragment),
        layout,
        color_format: 7,
        blend: alpha_blend(),
    }
}

#[test]
fn format_sizes_are_float_multiples() {
    assert_eq!(format_size(VertexFormat::Float2), 8);
    assert_eq!(format_size(VertexFormat::Float4), 16);
}

#[test]
fn alpha_blend_is_standard_compositing() {
    let b = alpha_blend();
    assert!(b.enable);
    assert_eq!(b.src_color, BlendFactor::SrcAlpha);
    assert_eq!(b.dst_color, BlendFactor::OneMinusSrcAlpha);
    assert_eq!(b.color_op, BlendOp::Add);
    assert_eq!(b.src_alpha, BlendFactor::One);
    assert_eq!(b.dst_alpha, BlendFactor::OneMinusSrcAlpha);
    assert_eq!(b.alpha_op, BlendOp::Add);
}

#[test]
fn valid_layout_builds_the_described_pipeline() {
    let config = demo_config(demo_layout());
    let p = build(&config, FillMode::Fill).unwrap();
    assert_eq!(p.fill_mode, FillMode::Fill);
    assert_eq!(p.layout, demo_layout());
    assert_eq!(p.color_format, 7);
    assert_eq!(p.blend, alpha_blend());
}

#[test]
fn attribute_past_stride_is_rejected() {
    // The four-float attribute at offset 32 spans to byte 48 of a
    // 40-byte record.
    let layout = VertexLayout {
        stride: 40,
        attributes: vec![
            attribute(0, VertexFormat::Float2, 0),
            attribute(9, VertexFormat::Float4, 32),
        ],
    };
    let config = demo_config(layout);
    assert_eq!(
        build(&config, FillMode::Fill),
        Err(PipelineError::AttributeBeyondStride { location: 9 })
    );
}

#[test]
fn rejection_names_the_first_offending_attribute() {
    let layout = VertexLayout {
        stride: 8,
        attributes: vec![
            attribute(0, VertexFormat::Float2, 0),
            attribute(5, VertexFormat::Float4, 0),
            attribute(6, VertexFormat::Float4, 4),
        ],
    };
    let config = demo_config(layout);
    assert_eq!(
        build(&config, FillMode::Line),
        Err(PipelineError::AttributeBeyondStride { location: 5 })
    );
}

#[test]
fn swapped_stages_are_rejected() {
    let mut config = demo_config(demo_layout());
    config.vertex_shader = shader(ShaderStage::Fragment);
    assert_eq!(build(&config, FillMode::Fill), Err(PipelineError::VertexStageMismatch));
    let mut config = demo_config(demo_layout());
    config.fragment_shader = shader(ShaderStage::Vertex);
    assert_eq!(build(&config, FillMode::Fill), Err(PipelineError::FragmentStageMismatch));
}

#[test]
fn pair_differs_only_in_fill_mode() {
    let (filled, wire) = build_pair(demo_config(demo_layout())).unwrap();
    assert_eq!(filled.fill_mode, FillMode::Fill);
    assert_eq!(wire.fill_mode, FillMode::Line);
    assert_eq!(filled.layout, wire.layout);
    assert_eq!(filled.color_format, wire.color_format);
    assert_eq!(filled.blend, wire.blend);
}

#[test]
fn pair_of_invalid_layout_is_rejected() {
    let layout = VertexLayout {
        stride: 4,
        attributes: vec![attribute(2, VertexFormat::Float2, 0)],
    };
    assert_eq!(
        build_pair(demo_config(layout)),
        Err(PipelineError::AttributeBeyondStride { location: 2 })
    );
}
