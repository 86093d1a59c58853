//! The pipeline variants of the three passes, described as plain data, and
//! the cache that compiles each normalize-pass variant once.
use vstd::prelude::*;
use crate::composite::{survives_depth_gate, AccumulationModel, SplatFragment, contribution, model_add};

verus! {

/// The size in bytes of one point record: the per-instance vertex stride.
pub const POINT_RECORD_SIZE: u64 = 32;

/// The size in bytes of a `Float32x4` vertex attribute.
pub const FLOAT32X4_SIZE: u64 = 16;

/// A depth comparison, as a fixed-function depth test applies it to the
/// incoming fragment's depth and the depth already stored.
#[derive(Clone, Copy, Debug, PartialEq, Eq, Structural)]
pub enum CompareFunction {
    Never,
    Less,
    Equal,
    LessEqual,
    Greater,
    NotEqual,
    GreaterEqual,
    Always,
}

/// Whether a fragment at depth `fragment` passes the test `cmp` against `stored`.
pub open spec fn compare_passes(cmp: CompareFunction, fragment: int, stored: int) -> bool {
    match cmp {
        CompareFunction::Never => false,
        CompareFunction::Less => fragment < stored,
        CompareFunction::Equal => fragment == stored,
        CompareFunction::LessEqual => fragment <= stored,
        CompareFunction::Greater => fragment > stored,
        CompareFunction::NotEqual => fragment != stored,
        CompareFunction::GreaterEqual => fragment >= stored,
        CompareFunction::Always => true,
    }
}

impl CompareFunction {
    /// Applies the depth test.
    pub fn passes(self, fragment: u32, stored: u32) -> (r: bool)
        ensures
            r == compare_passes(self, fragment as int, stored as int),
    {
        match self {
            CompareFunction::Never => false,
            CompareFunction::Less => fragment < stored,
            CompareFunction::Equal => fragment == stored,
            CompareFunction::LessEqual => fragment <= stored,
            CompareFunction::Greater => fragment > stored,
            CompareFunction::NotEqual => fragment != stored,
            CompareFunction::GreaterEqual => fragment >= stored,
            CompareFunction::Always => true,
        }
    }
}

/// A blend factor of the colour target.
#[derive(Clone, Copy, Debug, PartialEq, Eq, Structural)]
pub enum BlendFactor {
    Zero,
    One,
    SrcAlpha,
    OneMinusSrcAlpha,
}

/// A blend operation of the colour target.
#[derive(Clone, Copy, Debug, PartialEq, Eq, Structural)]
pub enum BlendOperation {
    Add,
    Subtract,
    Min,
    Max,
}

/// How one channel group (colour or alpha) is blended.
#[derive(Clone, Copy, Debug, PartialEq, Eq, Structural)]
pub struct BlendComponent {
    pub src_factor: BlendFactor,
    pub dst_factor: BlendFactor,
    pub operation: BlendOperation,
}

/// How the colour target is blended.
#[derive(Clone, Copy, Debug, PartialEq, Eq, Structural)]
pub struct BlendState {
    pub color: BlendComponent,
    pub alpha: BlendComponent,
}

/// The additive blending of the accumulation pass: the colour adds
/// `rgb * src_alpha`, the alpha channel adds the source alpha itself. A
/// fragment outputs its weight as alpha, so the target sums `(rgb * w, w)`.
pub open spec fn additive_blend() -> BlendState {
    BlendState {
        color: BlendComponent {
            src_factor: BlendFactor::SrcAlpha,
            dst_factor: BlendFactor::One,
            operation: BlendOperation::Add,
        },
        alpha: BlendComponent {
            src_factor: BlendFactor::One,
            dst_factor: BlendFactor::One,
            operation: BlendOperation::Add,
        },
    }
}

/// A blend factor applied to `value`, for a fragment whose alpha is
/// `src_alpha`. As in the accumulation model, a weight acts as a plain
/// multiplier.
pub open spec fn apply_factor(f: BlendFactor, value: int, src_alpha: int) -> int {
    match f {
        BlendFactor::Zero => 0,
        BlendFactor::One => value,
        BlendFactor::SrcAlpha => value * src_alpha,
        BlendFactor::OneMinusSrcAlpha => value * (1 - src_alpha),
    }
}

pub open spec fn apply_operation(op: BlendOperation, src: int, dst: int) -> int {
    match op {
        BlendOperation::Add => src + dst,
        BlendOperation::Subtract => src - dst,
        BlendOperation::Min => if src <= dst { src } else { dst },
        BlendOperation::Max => if src >= dst { src } else { dst },
    }
}

/// One channel after blending `src` into `dst`.
pub open spec fn blend_channel(c: BlendComponent, src: int, src_alpha: int, dst: int) -> int {
    apply_operation(
        c.operation,
        apply_factor(c.src_factor, src, src_alpha),
        apply_factor(c.dst_factor, dst, src_alpha),
    )
}

/// The texel after blending one fragment into `dst` with `b`: the
/// fragment's shader outputs its colour and, as alpha, its weight.
pub open spec fn blend_texel(b: BlendState, f: SplatFragment, dst: AccumulationModel) -> AccumulationModel {
    AccumulationModel {
        r: blend_channel(b.color, f.color.r as int, f.weight as int, dst.r),
        g: blend_channel(b.color, f.color.g as int, f.weight as int, dst.g),
        b: blend_channel(b.color, f.color.b as int, f.weight as int, dst.b),
        weight: blend_channel(b.alpha, f.weight as int, f.weight as int, dst.weight),
    }
}

/// The format of a render target.
#[derive(Clone, Copy, Debug, PartialEq, Eq, Structural)]
pub enum TextureFormat {
    /// Four 32-bit float channels: the accumulation target.
    Rgba32Float,
    /// The renderer's main colour format.
    ViewDefault,
}

/// The layouts of the bind groups that the passes bind.
#[derive(Clone, Copy, Debug, PartialEq, Eq, Structural)]
pub enum BindGroupLayoutKind {
    /// The renderer's per-view uniforms.
    MeshView,
    /// The renderer's per-mesh transform, alone.
    MeshModelOnly,
    /// The point cloud's world-from-local transform.
    PointCloudUniform,
    /// The point cloud material (the fallback point size).
    PointCloudMaterial,
    /// The depth mask and the accumulation texture, single-sampled.
    NormalizeTextures,
    /// The depth mask and the accumulation texture, multisampled.
    NormalizeTexturesMultisampled,
    /// The eye-dome lighting uniform block.
    EyeDomeLighting,
}

/// A shader definition that selects a shader variant.
#[derive(Clone, Copy, Debug, PartialEq, Eq, Structural)]
pub enum ShaderDef {
    /// The source textures are multisampled.
    Multisampled,
    /// Eye-dome lighting is applied.
    UseEdl,
    /// The bound of the unrolled neighbour-sampling loop.
    NeighbourCount(u32),
    /// Fragments output `(color * weight, weight)` for weighted accumulation.
    WeightedSplats,
}

/// The primitive topology of the splat mesh.
#[derive(Clone, Copy, Debug, PartialEq, Eq, Hash, Structural)]
pub enum PrimitiveTopology {
    PointList,
    LineList,
    LineStrip,
    TriangleList,
    TriangleStrip,
}

/// The format of a vertex attribute.
#[derive(Clone, Copy, Debug, PartialEq, Eq, Structural)]
pub enum VertexFormat {
    Float32x3,
    Float32x4,
}

/// One attribute of a vertex buffer layout.
#[derive(Clone, Copy, Debug, PartialEq, Eq, Structural)]
pub struct VertexAttribute {
    pub format: VertexFormat,
    pub offset: u64,
    pub shader_location: u32,
}

/// The size in bytes of a vertex attribute format.
pub open spec fn format_size(f: VertexFormat) -> int {
    match f {
        VertexFormat::Float32x3 => 12,
        VertexFormat::Float32x4 => FLOAT32X4_SIZE as int,
    }
}

/// The layout of the per-instance buffer that holds the point records:
/// position and size as one `Float32x4` at location 3, colour at location 4.
pub open spec fn point_instance_attributes() -> Seq<VertexAttribute> {
    seq![
        VertexAttribute { format: VertexFormat::Float32x4, offset: 0, shader_location: 3 },
        VertexAttribute {
            format: VertexFormat::Float32x4,
            offset: FLOAT32X4_SIZE,
            shader_location: 4,
        },
    ]
}

/// The key that selects a variant of the depth or accumulation pipeline.
#[derive(Clone, Copy, Debug, PartialEq, Eq, Hash, Structural)]
pub struct SplatPipelineKey {
    pub msaa_samples: u32,
    pub topology: PrimitiveTopology,
}

/// A pipeline that draws the point splats: an instanced quad mesh, with one
/// point record per instance.
pub struct SplatPipelineDescriptor {
    pub bind_groups: Vec<BindGroupLayoutKind>,
    /// The shader location of the mesh position attribute, when the mesh has one.
    pub mesh_position_location: Option<u32>,
    pub instance_stride: u64,
    pub instance_attributes: Vec<VertexAttribute>,
    pub fragment_shader_defs: Vec<ShaderDef>,
    /// The colour target's format and blending.
    pub target_format: TextureFormat,
    pub blend: Option<BlendState>,
    pub topology: PrimitiveTopology,
    pub cull_back_faces: bool,
    pub depth_write_enabled: bool,
    pub depth_compare: CompareFunction,
    pub sample_count: u32,
}

/// The bind groups of both splat passes, in binding order.
pub open spec fn splat_bind_groups() -> Seq<BindGroupLayoutKind> {
    seq![
        BindGroupLayoutKind::MeshView,
        BindGroupLayoutKind::MeshModelOnly,
        BindGroupLayoutKind::PointCloudUniform,
        BindGroupLayoutKind::PointCloudMaterial,
    ]
}

/// What both splat passes share: the vertex input, the bind groups, the
/// rasterization state and the sample count.
pub open spec fn splat_common(
    d: SplatPipelineDescriptor,
    key: SplatPipelineKey,
    mesh_has_position: bool,
) -> bool {
    &&& d.bind_groups@ == splat_bind_groups()
    &&& d.mesh_position_location == (if mesh_has_position { Some(0u32) } else { None })
    &&& d.instance_stride == POINT_RECORD_SIZE
    &&& d.instance_attributes@ == point_instance_attributes()
    &&& d.topology == key.topology
    &&& d.cull_back_faces
    &&& d.sample_count == key.msaa_samples
}

fn splat_bind_group_list() -> (r: Vec<BindGroupLayoutKind>)
    ensures
        r@ == splat_bind_groups(),
{
    let mut v = Vec::new();
    v.push(BindGroupLayoutKind::MeshView);
    v.push(BindGroupLayoutKind::MeshModelOnly);
    v.push(BindGroupLayoutKind::PointCloudUniform);
    v.push(BindGroupLayoutKind::PointCloudMaterial);
    v
}

fn point_instance_attribute_list() -> (r: Vec<VertexAttribute>)
    ensures
        r@ == point_instance_attributes(),
{
    let mut v = Vec::new();
    v.push(VertexAttribute { format: VertexFormat::Float32x4, offset: 0, shader_location: 3 });
    v.push(
        VertexAttribute {
            format: VertexFormat::Float32x4,
            offset: FLOAT32X4_SIZE,
            shader_location: 4,
        },
    );
    v
}

/// The depth pre-pass pipeline: it writes depth, keeping the nearest splat.
pub struct DepthPassPipeline;

impl DepthPassPipeline {
    pub fn specialize(&self, key: SplatPipelineKey, mesh_has_position: bool) -> (r:
        SplatPipelineDescriptor)
        ensures
            splat_common(r, key, mesh_has_position),
            r.fragment_shader_defs@ == Seq::<ShaderDef>::empty(),
            r.target_format == TextureFormat::Rgba32Float,
            r.blend.is_none(),
            r.depth_write_enabled,
            r.depth_compare == CompareFunction::GreaterEqual,
    {
        SplatPipelineDescriptor {
            bind_groups: splat_bind_group_list(),
            mesh_position_location: if mesh_has_position { Some(0) } else { None },
            instance_stride: POINT_RECORD_SIZE,
            instance_attributes: point_instance_attribute_list(),
            fragment_shader_defs: Vec::new(),
            target_format: TextureFormat::Rgba32Float,
            blend: None,
            topology: key.topology,
            cull_back_faces: true,
            depth_write_enabled: true,
            depth_compare: CompareFunction::GreaterEqual,
            sample_count: key.msaa_samples,
        }
    }
}

/// The accumulation pass pipeline: weighted splats blended additively into a
/// float target, tested against the pre-pass depth without writing it.
pub struct AttributePassPipeline;

impl AttributePassPipeline {
    pub fn specialize(&self, key: SplatPipelineKey, mesh_has_position: bool) -> (r:
        SplatPipelineDescriptor)
        ensures
            splat_common(r, key, mesh_has_position),
            r.fragment_shader_defs@ == seq![ShaderDef::WeightedSplats],
            r.target_format == TextureFormat::Rgba32Float,
            r.blend == Some(additive_blend()),
            !r.depth_write_enabled,
            r.depth_compare == CompareFunction::GreaterEqual,
    {
        let mut defs = Vec::new();
        defs.push(ShaderDef::WeightedSplats);
        let color = BlendComponent {
            src_factor: BlendFactor::SrcAlpha,
            dst_factor: BlendFactor::One,
            operation: BlendOperation::Add,
        };
        let alpha = BlendComponent {
            src_factor: BlendFactor::One,
            dst_factor: BlendFactor::One,
            operation: BlendOperation::Add,
        };
        SplatPipelineDescriptor {
            bind_groups: splat_bind_group_list(),
            mesh_position_location: if mesh_has_position { Some(0) } else { None },
            instance_stride: POINT_RECORD_SIZE,
            instance_attributes: point_instance_attribute_list(),
            fragment_shader_defs: defs,
            target_format: TextureFormat::Rgba32Float,
            blend: Some(BlendState { color, alpha }),
            topology: key.topology,
            cull_back_faces: true,
            depth_write_enabled: false,
            depth_compare: CompareFunction::GreaterEqual,
            sample_count: key.msaa_samples,
        }
    }
}

/// The depth test that the accumulation pipeline configures is the depth
/// gate of the compositing scheme, and it leaves the pre-pass depth intact.
pub proof fn lemma_attribute_depth_test_is_gate(
    d: SplatPipelineDescriptor,
    fragment: int,
    stored: int,
)
    requires
        d.depth_compare == CompareFunction::GreaterEqual,
    ensures
        compare_passes(d.depth_compare, fragment, stored) == survives_depth_gate(fragment, stored),
{
}

/// The blending that the accumulation pipeline configures adds each
/// fragment's `(rgb * w, w)` to the texel: it is the accumulation step of
/// the compositing model.
pub proof fn lemma_attribute_blend_accumulates(
    d: SplatPipelineDescriptor,
    f: SplatFragment,
    dst: AccumulationModel,
)
    requires
        d.blend == Some(additive_blend()),
    ensures
        blend_texel(d.blend.unwrap(), f, dst) == model_add(dst, contribution(f)),
{
}

/// The per-instance attributes lie side by side and cover the point record
/// exactly: the vertex layout and the 32-byte record agree.
pub proof fn lemma_instance_layout_covers_record()
    ensures
        point_instance_attributes()[0].offset == 0,
        point_instance_attributes()[0].offset + format_size(point_instance_attributes()[0].format)
            == point_instance_attributes()[1].offset,
        point_instance_attributes()[1].offset + format_size(point_instance_attributes()[1].format)
            == POINT_RECORD_SIZE,
{
}

/// The key that selects a variant of the normalize pipeline.
#[derive(Clone, Copy, Debug, PartialEq, Eq, Hash, Structural)]
pub struct NormalizePassPipelineKey {
    pub samples: u32,
    pub use_edl: bool,
    pub edl_neighbour_count: u32,
}

/// A key in canonical form: without eye-dome lighting the neighbour count,
/// which then selects nothing, is 0.
pub open spec fn canonical_key(k: NormalizePassPipelineKey) -> bool {
    !k.use_edl ==> k.edl_neighbour_count == 0
}

/// The full-screen pipeline of the normalize pass.
pub struct NormalizePassPipelineDescriptor {
    pub bind_groups: Vec<BindGroupLayoutKind>,
    pub shader_defs: Vec<ShaderDef>,
    pub target_format: TextureFormat,
    pub blend: Option<BlendState>,
    pub depth_write_enabled: bool,
    pub depth_compare: CompareFunction,
    pub sample_count: u32,
}

/// The bind groups of the normalize variant for `key`.
pub open spec fn normalize_bind_groups(key: NormalizePassPipelineKey) -> Seq<BindGroupLayoutKind> {
    let textures = if key.samples == 1 {
        BindGroupLayoutKind::NormalizeTextures
    } else {
        BindGroupLayoutKind::NormalizeTexturesMultisampled
    };
    if key.use_edl {
        seq![textures, BindGroupLayoutKind::EyeDomeLighting]
    } else {
        seq![textures]
    }
}

/// The shader definitions of the normalize variant for `key`.
pub open spec fn normalize_shader_defs(key: NormalizePassPipelineKey) -> Seq<ShaderDef> {
    let ms = if key.samples > 1 { seq![ShaderDef::Multisampled] } else { Seq::empty() };
    if key.use_edl {
        ms + seq![ShaderDef::UseEdl, ShaderDef::NeighbourCount(key.edl_neighbour_count)]
    } else {
        ms
    }
}

/// The normalize pass pipeline: a full-screen triangle that reads the depth
/// mask and the accumulation texture and writes the final colour.
pub struct NormalizePassPipeline;

impl NormalizePassPipeline {
    pub fn specialize(&self, key: NormalizePassPipelineKey) -> (r: NormalizePassPipelineDescriptor)
        ensures
            r.bind_groups@ == normalize_bind_groups(key),
            r.shader_defs@ == normalize_shader_defs(key),
            r.target_format == TextureFormat::ViewDefault,
            r.blend.is_none(),
            !r.depth_write_enabled,
            r.depth_compare == CompareFunction::Always,
            r.sample_count == key.samples,
    {
        let mut bind_groups = Vec::new();
        if key.samples == 1 {
            bind_groups.push(BindGroupLayoutKind::NormalizeTextures);
        } else {
            bind_groups.push(BindGroupLayoutKind::NormalizeTexturesMultisampled);
        }
        let mut shader_defs = Vec::new();
        if key.samples > 1 {
            shader_defs.push(ShaderDef::Multisampled);
        }
        if key.use_edl {
            bind_groups.push(BindGroupLayoutKind::EyeDomeLighting);
            shader_defs.push(ShaderDef::UseEdl);
            shader_defs.push(ShaderDef::NeighbourCount(key.edl_neighbour_count));
        }
        proof {
            let ms: Seq<ShaderDef> = if key.samples > 1 { seq![ShaderDef::Multisampled] } else { Seq::empty() };
            if key.use_edl {
                assert(shader_defs@ =~= ms + seq![ShaderDef::UseEdl, ShaderDef::NeighbourCount(key.edl_neighbour_count)]);
                assert(bind_groups@ =~= normalize_bind_groups(key));
            } else {
                assert(shader_defs@ =~= ms);
                assert(bind_groups@ =~= normalize_bind_groups(key));
            }
        }
        NormalizePassPipelineDescriptor {
            bind_groups,
            shader_defs,
            target_format: TextureFormat::ViewDefault,
            blend: None,
            depth_write_enabled: false,
            depth_compare: CompareFunction::Always,
            sample_count: key.samples,
        }
    }
}

/// Distinct canonical keys select distinct normalize variants: they differ
/// in sample count, in bind groups or in shader definitions.
pub proof fn lemma_distinct_keys_distinct_variants(
    k1: NormalizePassPipelineKey,
    k2: NormalizePassPipelineKey,
)
    requires
        canonical_key(k1),
        canonical_key(k2),
        k1 != k2,
    ensures
        k1.samples != k2.samples || normalize_bind_groups(k1) != normalize_bind_groups(k2)
            || normalize_shader_defs(k1) != normalize_shader_defs(k2),
{
    if k1.samples == k2.samples && k1.use_edl == k2.use_edl {
        assert(k1.use_edl);
        let d1 = normalize_shader_defs(k1);
        let d2 = normalize_shader_defs(k2);
        assert(d1[d1.len() - 1] == ShaderDef::NeighbourCount(k1.edl_neighbour_count));
        assert(d2[d2.len() - 1] == ShaderDef::NeighbourCount(k2.edl_neighbour_count));
    } else if k1.samples == k2.samples {
        assert(normalize_bind_groups(k1).len() != normalize_bind_groups(k2).len());
    }
}

} // verus!
