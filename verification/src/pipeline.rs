//! Pipeline construction: the vertex-input layout with its validation
//! against the declared stride, the blend configuration, and the build of
//! the filled and wire-frame pipeline variants from one shared base.

use vstd::prelude::*;
use crate::shader::{ShaderObject, ShaderStage};

verus! {

/// The numeric format of one vertex attribute.
#[derive(Clone, Copy, Debug, PartialEq, Eq, Structural)]
pub enum VertexFormat {
    Float2,
    Float4,
}

/// How many bytes one attribute of this format spans in a vertex record.
pub open spec fn format_size_spec(f: VertexFormat) -> int {
    match f {
        VertexFormat::Float2 => 8,
        VertexFormat::Float4 => 16,
    }
}

/// Byte size of one attribute of format `f`.
pub fn format_size(f: VertexFormat) -> (n: u32)
    ensures
        n as int == format_size_spec(f),
{
    match f {
        VertexFormat::Float2 => 8,
        VertexFormat::Float4 => 16,
    }
}

/// One attribute of the vertex-input layout: where the shader reads it,
/// which buffer slot feeds it, and its byte offset within one record.
#[derive(Clone, Copy, Debug, PartialEq, Eq, Structural)]
pub struct VertexAttribute {
    pub location: u32,
    pub buffer_slot: u32,
    pub format: VertexFormat,
    pub offset: u32,
}

/// The byte layout of one vertex record: its stride and the ordered
/// attributes read out of it.
#[derive(Clone, Debug, PartialEq, Eq)]
pub struct VertexLayout {
    pub stride: u32,
    pub attributes: Vec<VertexAttribute>,
}

/// Whether one attribute lies fully inside a record of the given stride.
pub open spec fn attribute_fits(a: VertexAttribute, stride: u32) -> bool {
    a.offset + format_size_spec(a.format) <= stride
}

/// A layout is valid when every attribute's span ends within the stride.
pub open spec fn layout_valid(stride: u32, attrs: Seq<VertexAttribute>) -> bool {
    forall|i: int| 0 <= i < attrs.len() ==> attribute_fits(attrs[i], stride)
}

/// The index of the first attribute that does not fit; meaningful only
/// when some attribute does not fit.
pub open spec fn first_unfit(stride: u32, attrs: Seq<VertexAttribute>) -> int
    decreases attrs.len(),
{
    if attrs.len() == 0 {
        0
    } else if !attribute_fits(attrs[0], stride) {
        0
    } else {
        1 + first_unfit(stride, attrs.drop_first())
    }
}

pub proof fn lemma_first_unfit(stride: u32, attrs: Seq<VertexAttribute>, i: int)
    requires
        0 <= i < attrs.len(),
        !attribute_fits(attrs[i], stride),
        forall|j: int| 0 <= j < i ==> attribute_fits(attrs[j], stride),
    ensures
        first_unfit(stride, attrs) == i,
    decreases attrs.len(),
{
    if i > 0 {
        lemma_first_unfit(stride, attrs.drop_first(), i - 1);
    }
}

/// Rasterizer fill mode: solid triangles or their edges only.
#[derive(Clone, Copy, Debug, PartialEq, Eq, Structural)]
pub enum FillMode {
    Fill,
    Line,
}

/// A blend factor of the color-target blend equation.
#[derive(Clone, Copy, Debug, PartialEq, Eq, Structural)]
pub enum BlendFactor {
    Zero,
    One,
    SrcAlpha,
    OneMinusSrcAlpha,
}

/// A blend combine operation.
#[derive(Clone, Copy, Debug, PartialEq, Eq, Structural)]
pub enum BlendOp {
    Add,
}

/// The color-target blend configuration.
#[derive(Clone, Copy, Debug, PartialEq, Eq, Structural)]
pub struct BlendState {
    pub enable: bool,
    pub src_color: BlendFactor,
    pub dst_color: BlendFactor,
    pub color_op: BlendOp,
    pub src_alpha: BlendFactor,
    pub dst_alpha: BlendFactor,
    pub alpha_op: BlendOp,
}

/// Standard alpha compositing: color combines as
/// `src * srcAlpha + dst * (1 - srcAlpha)`, alpha additively.
pub open spec fn standard_alpha_blend() -> BlendState {
    BlendState {
        enable: true,
        src_color: BlendFactor::SrcAlpha,
        dst_color: BlendFactor::OneMinusSrcAlpha,
        color_op: BlendOp::Add,
        src_alpha: BlendFactor::One,
        dst_alpha: BlendFactor::OneMinusSrcAlpha,
        alpha_op: BlendOp::Add,
    }
}

/// The standard alpha-compositing blend configuration.
pub fn alpha_blend() -> (b: BlendState)
    ensures
        b == standard_alpha_blend(),
{
    BlendState {
        enable: true,
        src_color: BlendFactor::SrcAlpha,
        dst_color: BlendFactor::OneMinusSrcAlpha,
        color_op: BlendOp::Add,
        src_alpha: BlendFactor::One,
        dst_alpha: BlendFactor::OneMinusSrcAlpha,
        alpha_op: BlendOp::Add,
    }
}

/// The shared base configuration a pipeline is built from; only the fill
/// mode is chosen per variant at build time.
#[derive(Debug)]
pub struct PipelineConfig {
    pub vertex_shader: ShaderObject,
    pub fragment_shader: ShaderObject,
    pub layout: VertexLayout,
    pub color_format: u32,
    pub blend: BlendState,
}

/// Why the device-side pipeline configuration was rejected at build time.
#[derive(Clone, Debug, PartialEq, Eq)]
pub enum PipelineError {
    /// The shader handed in as the vertex stage is not a vertex shader.
    VertexStageMismatch,
    /// The shader handed in as the fragment stage is not a fragment shader.
    FragmentStageMismatch,
    /// An attribute's span ends past the declared stride; carries the
    /// shader-visible location of the first such attribute.
    AttributeBeyondStride { location: u32 },
}

/// An immutable pipeline: one full rasterization configuration. It retains
/// the validated layout and render state but no reference to the shaders
/// that built it.
#[derive(Clone, Debug, PartialEq, Eq)]
pub struct Pipeline {
    pub fill_mode: FillMode,
    pub layout: VertexLayout,
    pub color_format: u32,
    pub blend: BlendState,
}

/// Whether `p` is the pipeline that `config` describes under `mode`.
pub open spec fn pipeline_matches(p: Pipeline, c: PipelineConfig, mode: FillMode) -> bool {
    &&& p.fill_mode == mode
    &&& p.layout.stride == c.layout.stride
    &&& p.layout.attributes@ == c.layout.attributes@
    &&& p.color_format == c.color_format
    &&& p.blend == c.blend
}

/// Whether `config` is accepted by the builder at all.
pub open spec fn config_valid(c: PipelineConfig) -> bool {
    &&& c.vertex_shader.stage == ShaderStage::Vertex
    &&& c.fragment_shader.stage == ShaderStage::Fragment
    &&& layout_valid(c.layout.stride, c.layout.attributes@)
}

/// The error a rejected configuration produces: stage mismatches first,
/// then the first attribute whose span exceeds the stride.
pub open spec fn config_error(c: PipelineConfig) -> PipelineError {
    if c.vertex_shader.stage != ShaderStage::Vertex {
        PipelineError::VertexStageMismatch
    } else if c.fragment_shader.stage != ShaderStage::Fragment {
        PipelineError::FragmentStageMismatch
    } else {
        PipelineError::AttributeBeyondStride {
            location: c.layout.attributes@[first_unfit(c.layout.stride, c.layout.attributes@)].location,
        }
    }
}

/// Copies the attribute list so that each pipeline variant owns an
/// independent configuration.
fn copy_attributes(attrs: &Vec<VertexAttribute>) -> (r: Vec<VertexAttribute>)
    ensures
        r@ == attrs@,
{
    let mut out: Vec<VertexAttribute> = Vec::new();
    let mut i: usize = 0;
    while i < attrs.len()
        invariant
            i <= attrs@.len(),
            out@ == attrs@.subrange(0, i as int),
        decreases attrs@.len() - i,
    {
        out.push(attrs[i]);
        proof {
            assert(out@ =~= attrs@.subrange(0, i + 1 as int));
        }
        i = i + 1;
    }
    proof {
        assert(attrs@.subrange(0, attrs@.len() as int) =~= attrs@);
    }
    out
}

/// Builds one pipeline variant from the base configuration. Succeeds
/// exactly when the stages are as declared and every attribute of the
/// vertex layout ends within the declared stride; a rejection names the
/// first offending attribute.
pub fn build(config: &PipelineConfig, fill_mode: FillMode) -> (r: Result<Pipeline, PipelineError>)
    ensures
        r is Ok <==> config_valid(*config),
        match r {
            Ok(p) => pipeline_matches(p, *config, fill_mode),
            Err(e) => e == config_error(*config),
        },
{
    match config.vertex_shader.stage {
        ShaderStage::Vertex => {},
        ShaderStage::Fragment => {
            return Err(PipelineError::VertexStageMismatch);
        },
    }
    match config.fragment_shader.stage {
        ShaderStage::Fragment => {},
        ShaderStage::Vertex => {
            return Err(PipelineError::FragmentStageMismatch);
        },
    }
    let stride = config.layout.stride;
    let attrs = &config.layout.attributes;
    let mut i: usize = 0;
    while i < attrs.len()
        invariant
            i <= attrs@.len(),
            config.vertex_shader.stage == ShaderStage::Vertex,
            config.fragment_shader.stage == ShaderStage::Fragment,
            stride == config.layout.stride,
            attrs@ == config.layout.attributes@,
            forall|j: int| 0 <= j < i ==> attribute_fits(attrs@[j], stride),
        decreases attrs@.len() - i,
    {
        let a = attrs[i];
        let size = format_size(a.format);
        if a.offset as u64 + size as u64 > stride as u64 {
            proof {
                lemma_first_unfit(stride, attrs@, i as int);
            }
            return Err(PipelineError::AttributeBeyondStride { location: a.location });
        }
        i = i + 1;
    }
    Ok(
        Pipeline {
            fill_mode,
            layout: VertexLayout { stride, attributes: copy_attributes(attrs) },
            color_format: config.color_format,
            blend: config.blend,
        },
    )
}

/// Builds the two pipeline variants the renderer toggles between: the
/// filled one and the wire-frame one, from one base configuration. The
/// shaders are consumed by this one call and released with the
/// configuration; neither returned pipeline refers to them.
pub fn build_pair(config: PipelineConfig) -> (r: Result<(Pipeline, Pipeline), PipelineError>)
    ensures
        r is Ok <==> config_valid(config),
        match r {
            Ok(pair) => pipeline_matches(pair.0, config, FillMode::Fill) && pipeline_matches(
                pair.1,
                config,
                FillMode::Line,
            ),
            Err(e) => e == config_error(config),
        },
{
    let filled = match build(&config, FillMode::Fill) {
        Ok(p) => p,
        Err(e) => {
            return Err(e);
        },
    };
    let wire = match build(&config, FillMode::Line) {
        Ok(p) => p,
        Err(e) => {
            return Err(e);
        },
    };
    Ok((filled, wire))
}

} // verus!
