use point_cloud_splat::passes::{
    decide_attribute_pass, decide_depth_pass, decide_normalize_pass, normalize_textures_layout,
    plan_instanced_draw, AttributePassInputs, DrawCall, IndexSlice, InstancedDrawInputs,
    MissingResource, NormalizeDraw, PassDecision, RenderCommandResult, SetPointCloudMaterialGroup,
    FULLSCREEN_VERTICES,
};
use point_cloud_splat::pipeline::BindGroupLayoutKind;

fn all_present() -> AttributePassInputs {
    AttributePassInputs {
        phases: true,
        prepass_textures: true,
        extracted_view: true,
        view_phase: true,
        view_depth: true,
        camera: true,
    }
}

#[test]
fn attribute_pass_renders_with_everything_present() {
    assert_eq!(decide_attribute_pass(&all_present()), PassDecision::Render);
}

#[test]
fn attribute_pass_skips_with_a_warning_for_missing_textures() {
    let i = AttributePassInputs { prepass_textures: false, ..all_present() };
    assert_eq!(decide_attribute_pass(&i), PassDecision::Warn(MissingResource::AttributeTexture));
    let i = AttributePassInputs { extracted_view: false, ..all_present() };
    assert_eq!(decide_attribute_pass(&i), PassDecision::Warn(MissingResource::ExtractedView));
    let i = AttributePassInputs { view_depth: false, ..all_present() };
    assert_eq!(decide_attribute_pass(&i), PassDecision::Warn(MissingResource::ViewDepthTexture));
    let i = AttributePassInputs { camera: false, ..all_present() };
    assert_eq!(decide_attribute_pass(&i), PassDecision::EmptyPass(MissingResource::ExtractedCamera));
}

#[test]
fn attribute_pass_skips_quietly_without_phases() {
    let i = AttributePassInputs { phases: false, prepass_textures: false, ..all_present() };
    assert_eq!(decide_attribute_pass(&i), PassDecision::Skip);
    let i = AttributePassInputs { view_phase: false, ..all_present() };
    assert_eq!(decide_attribute_pass(&i), PassDecision::Skip);
}

#[test]
fn depth_and_normalize_passes_wait_for_their_resources() {
    assert_eq!(decide_depth_pass(true, true, true), PassDecision::Render);
    assert_eq!(decide_depth_pass(true, false, true), PassDecision::Skip);
    assert_eq!(decide_normalize_pass(false, true), NormalizeDraw::Skip);
    assert_eq!(decide_normalize_pass(true, true), NormalizeDraw::Draw { bind_edl: true });
    assert_eq!(decide_normalize_pass(true, false), NormalizeDraw::Draw { bind_edl: false });
    assert_eq!(FULLSCREEN_VERTICES, 3);
}

#[test]
fn texture_layout_follows_sample_count() {
    assert_eq!(normalize_textures_layout(true, true, 1), Ok(BindGroupLayoutKind::NormalizeTextures));
    assert_eq!(
        normalize_textures_layout(true, true, 4),
        Ok(BindGroupLayoutKind::NormalizeTexturesMultisampled)
    );
    assert_eq!(normalize_textures_layout(false, true, 1), Err(MissingResource::DepthTexture));
    assert_eq!(normalize_textures_layout(true, false, 1), Err(MissingResource::AttributeTexture));
}

#[test]
fn material_group_binds_when_prepared() {
    assert_eq!(SetPointCloudMaterialGroup::<3>::index(), 3);
    assert_eq!(SetPointCloudMaterialGroup::<3>::render(true, true), RenderCommandResult::Success);
    assert_eq!(SetPointCloudMaterialGroup::<3>::render(true, false), RenderCommandResult::Skip);
    assert_eq!(SetPointCloudMaterialGroup::<3>::render(false, true), RenderCommandResult::Skip);
}

#[test]
fn instanced_draw_uses_one_instance_per_point() {
    let indexed = InstancedDrawInputs {
        vertex_range: Some((100, 104)),
        indexed: Some(Some(IndexSlice { start: 30, count: 6 })),
        point_count: Some(5000),
    };
    assert_eq!(
        plan_instanced_draw(&indexed),
        Some(DrawCall::Indexed { first_index: 30, end_index: 36, base_vertex: 100, instances: 5000 })
    );
    let plain = InstancedDrawInputs { indexed: None, ..indexed };
    assert_eq!(
        plan_instanced_draw(&plain),
        Some(DrawCall::NonIndexed { first_vertex: 100, end_vertex: 104, instances: 5000 })
    );
    let unallocated = InstancedDrawInputs { indexed: Some(None), ..indexed };
    assert_eq!(plan_instanced_draw(&unallocated), None);
    let no_cloud = InstancedDrawInputs { point_count: None, ..indexed };
    assert_eq!(plan_instanced_draw(&no_cloud), None);
    let no_mesh = InstancedDrawInputs { vertex_range: None, ..indexed };
    assert_eq!(plan_instanced_draw(&no_mesh), None);
}
