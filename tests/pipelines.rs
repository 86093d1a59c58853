use point_cloud_splat::cache::{NormalizePipelineCache, PipelineRequest};
use point_cloud_splat::edl::{normalize_pipeline_key, EdlMode};
use point_cloud_splat::pipeline::{
    AttributePassPipeline, BindGroupLayoutKind, BlendFactor, BlendOperation, CompareFunction,
    DepthPassPipeline, NormalizePassPipeline, NormalizePassPipelineKey, PrimitiveTopology,
    ShaderDef, SplatPipelineKey, TextureFormat, VertexAttribute, VertexFormat,
};

fn key(samples: u32, use_edl: bool, n: u32) -> NormalizePassPipelineKey {
    NormalizePassPipelineKey { samples, use_edl, edl_neighbour_count: n }
}

#[test]
fn normalize_variant_single_sample_without_edl() {
    let d = NormalizePassPipeline.specialize(key(1, false, 0));
    assert_eq!(d.bind_groups, vec![BindGroupLayoutKind::NormalizeTextures]);
    assert!(d.shader_defs.is_empty());
    assert_eq!(d.sample_count, 1);
    assert_eq!(d.depth_compare, CompareFunction::Always);
    assert!(!d.depth_write_enabled);
    assert!(d.blend.is_none());
    assert_eq!(d.target_format, TextureFormat::ViewDefault);
}

#[test]
fn normalize_variant_multisampled_with_edl() {
    let d = NormalizePassPipeline.specialize(key(4, true, 8));
    assert_eq!(
        d.bind_groups,
        vec![BindGroupLayoutKind::NormalizeTexturesMultisampled, BindGroupLayoutKind::EyeDomeLighting]
    );
    assert_eq!(
        d.shader_defs,
        vec![ShaderDef::Multisampled, ShaderDef::UseEdl, ShaderDef::NeighbourCount(8)]
    );
    assert_eq!(d.sample_count, 4);
}

#[test]
fn attribute_pipeline_blends_additively_behind_the_prepass() {
    let k = SplatPipelineKey { msaa_samples: 4, topology: PrimitiveTopology::TriangleList };
    let d = AttributePassPipeline.specialize(k, true);
    let blend = d.blend.expect("additive blending");
    assert_eq!(blend.color.src_factor, BlendFactor::SrcAlpha);
    assert_eq!(blend.color.dst_factor, BlendFactor::One);
    assert_eq!(blend.color.operation, BlendOperation::Add);
    assert_eq!(blend.alpha.src_factor, BlendFactor::One);
    assert_eq!(blend.alpha.dst_factor, BlendFactor::One);
    assert_eq!(blend.alpha.operation, BlendOperation::Add);
    assert_eq!(d.depth_compare, CompareFunction::GreaterEqual);
    assert!(!d.depth_write_enabled);
    assert_eq!(d.target_format, TextureFormat::Rgba32Float);
    assert_eq!(d.fragment_shader_defs, vec![ShaderDef::WeightedSplats]);
    assert_eq!(d.instance_stride, 32);
    assert_eq!(
        d.instance_attributes,
        vec![
            VertexAttribute { format: VertexFormat::Float32x4, offset: 0, shader_location: 3 },
            VertexAttribute { format: VertexFormat::Float32x4, offset: 16, shader_location: 4 },
        ]
    );
    assert_eq!(d.mesh_position_location, Some(0));
    assert_eq!(d.sample_count, 4);
    assert_eq!(
        d.bind_groups,
        vec![
            BindGroupLayoutKind::MeshView,
            BindGroupLayoutKind::MeshModelOnly,
            BindGroupLayoutKind::PointCloudUniform,
            BindGroupLayoutKind::PointCloudMaterial,
        ]
    );
}

#[test]
fn depth_pipeline_writes_the_nearest_depth() {
    let k = SplatPipelineKey { msaa_samples: 1, topology: PrimitiveTopology::TriangleList };
    let d = DepthPassPipeline.specialize(k, false);
    assert!(d.depth_write_enabled);
    assert_eq!(d.depth_compare, CompareFunction::GreaterEqual);
    assert!(d.blend.is_none());
    assert_eq!(d.mesh_position_location, None);
    assert!(d.fragment_shader_defs.is_empty());
}

#[test]
fn compare_functions_follow_their_names() {
    assert!(CompareFunction::GreaterEqual.passes(5, 5));
    assert!(!CompareFunction::Greater.passes(5, 5));
    assert!(CompareFunction::Less.passes(4, 5));
    assert!(!CompareFunction::Never.passes(4, 5));
    assert!(CompareFunction::Always.passes(0, 9));
    assert!(CompareFunction::NotEqual.passes(1, 2));
}

#[test]
fn pipeline_requested_twice_is_compiled_once() {
    let mut cache = NormalizePipelineCache::new();
    let k = key(4, true, 8);
    let first = cache.request(k);
    assert_eq!(first, PipelineRequest { id: 0, compile: true });
    let second = cache.request(k);
    assert_eq!(second, PipelineRequest { id: 0, compile: false });
    assert_eq!(cache.len(), 1);
}

#[test]
fn distinct_keys_get_distinct_pipelines() {
    let mut cache = NormalizePipelineCache::new();
    let a = cache.request(key(1, false, 0));
    let b = cache.request(key(4, false, 0));
    let c = cache.request(key(4, true, 4));
    assert_eq!((a.id, b.id, c.id), (0, 1, 2));
    assert!(a.compile && b.compile && c.compile);
    assert_eq!(cache.get(&key(4, false, 0)), Some(1));
    assert_eq!(cache.get(&key(2, false, 0)), None);
}

#[test]
fn view_key_follows_the_render_mode() {
    assert_eq!(normalize_pipeline_key(4, None), Some(key(4, false, 0)));
    assert_eq!(
        normalize_pipeline_key(1, Some(EdlMode { enabled: false, neighbour_count: 8 })),
        Some(key(1, false, 0))
    );
    assert_eq!(
        normalize_pipeline_key(1, Some(EdlMode { enabled: true, neighbour_count: 8 })),
        Some(key(1, true, 8))
    );
    assert_eq!(
        normalize_pipeline_key(1, Some(EdlMode { enabled: true, neighbour_count: 16 })),
        Some(key(1, true, 16))
    );
    assert_eq!(normalize_pipeline_key(1, Some(EdlMode { enabled: true, neighbour_count: 17 })), None);
    assert_eq!(
        normalize_pipeline_key(1, Some(EdlMode { enabled: false, neighbour_count: 17 })),
        Some(key(1, false, 0))
    );
}
