//! The per-view decisions of the three passes: whether a pass runs this
//! frame, which layout its textures are bound with, and what it draws.
//! A missing per-view resource skips the pass for that view and frame only.
use vstd::prelude::*;
use crate::pipeline::BindGroupLayoutKind;

verus! {

/// A per-view resource whose absence skips a pass, with a warning.
#[derive(Clone, Copy, Debug, PartialEq, Eq, Structural)]
pub enum MissingResource {
    /// The view's accumulation target.
    AttributeTexture,
    /// The view's depth mask from the pre-pass.
    DepthTexture,
    /// The view's extracted view data.
    ExtractedView,
    /// The view's main depth attachment.
    ViewDepthTexture,
    /// The view's extracted camera.
    ExtractedCamera,
}

/// What a pass does for one view this frame.
#[derive(Clone, Copy, Debug, PartialEq, Eq, Structural)]
pub enum PassDecision {
    /// Nothing to do for this view: no warning.
    Skip,
    /// A required resource is missing: warn, and skip this view this frame.
    Warn(MissingResource),
    /// Record the pass with its attachments cleared, draw nothing, and warn.
    EmptyPass(MissingResource),
    /// Record the pass and draw the phase's items.
    Render,
}

/// What the accumulation pass node finds for one view.
#[derive(Clone, Copy, Debug, PartialEq, Eq, Structural)]
pub struct AttributePassInputs {
    /// The world holds the accumulation phases of all views.
    pub phases: bool,
    /// The view's accumulation target was prepared.
    pub prepass_textures: bool,
    pub extracted_view: bool,
    /// The view has an accumulation phase.
    pub view_phase: bool,
    pub view_depth: bool,
    pub camera: bool,
}

/// The accumulation pass's decision, checks taken in order.
pub open spec fn attribute_pass_decision(i: AttributePassInputs) -> PassDecision {
    if !i.phases {
        PassDecision::Skip
    } else if !i.prepass_textures {
        PassDecision::Warn(MissingResource::AttributeTexture)
    } else if !i.extracted_view {
        PassDecision::Warn(MissingResource::ExtractedView)
    } else if !i.view_phase {
        PassDecision::Skip
    } else if !i.view_depth {
        PassDecision::Warn(MissingResource::ViewDepthTexture)
    } else if !i.camera {
        PassDecision::EmptyPass(MissingResource::ExtractedCamera)
    } else {
        PassDecision::Render
    }
}

/// Decides the accumulation pass for one view.
pub fn decide_attribute_pass(i: &AttributePassInputs) -> (r: PassDecision)
    ensures
        r == attribute_pass_decision(*i),
        r == PassDecision::Render <==> (i.phases && i.prepass_textures && i.extracted_view
            && i.view_phase && i.view_depth && i.camera),
{
    if !i.phases {
        return PassDecision::Skip;
    }
    if !i.prepass_textures {
        return PassDecision::Warn(MissingResource::AttributeTexture);
    }
    if !i.extracted_view {
        return PassDecision::Warn(MissingResource::ExtractedView);
    }
    if !i.view_phase {
        return PassDecision::Skip;
    }
    if !i.view_depth {
        return PassDecision::Warn(MissingResource::ViewDepthTexture);
    }
    if !i.camera {
        return PassDecision::EmptyPass(MissingResource::ExtractedCamera);
    }
    PassDecision::Render
}

/// Decides the depth pre-pass for one view: it renders when the phases, the
/// view's main depth attachment and the view's phase are all there.
pub fn decide_depth_pass(phases: bool, view_depth: bool, view_phase: bool) -> (r: PassDecision)
    ensures
        r == (if phases && view_depth && view_phase {
            PassDecision::Render
        } else {
            PassDecision::Skip
        }),
{
    if phases && view_depth && view_phase {
        PassDecision::Render
    } else {
        PassDecision::Skip
    }
}

/// The normalize pass draws one full-screen triangle: three vertices, one instance.
pub const FULLSCREEN_VERTICES: u32 = 3;

/// What the normalize pass does for one view.
#[derive(Clone, Copy, Debug, PartialEq, Eq, Structural)]
pub enum NormalizeDraw {
    /// The view's pipeline variant is still compiling: skip this frame.
    Skip,
    /// Draw the full-screen triangle; bind the eye-dome lighting group at
    /// index 1 when `bind_edl`.
    Draw { bind_edl: bool },
}

/// Decides the normalize pass for one view.
pub fn decide_normalize_pass(pipeline_ready: bool, edl_bind_group: bool) -> (r: NormalizeDraw)
    ensures
        r == (if pipeline_ready {
            NormalizeDraw::Draw { bind_edl: edl_bind_group }
        } else {
            NormalizeDraw::Skip
        }),
{
    if pipeline_ready {
        NormalizeDraw::Draw { bind_edl: edl_bind_group }
    } else {
        NormalizeDraw::Skip
    }
}

/// The layout of the depth-mask and accumulation textures of a view with
/// `samples` samples per pixel.
pub open spec fn textures_layout(samples: u32) -> BindGroupLayoutKind {
    if samples == 1 {
        BindGroupLayoutKind::NormalizeTextures
    } else {
        BindGroupLayoutKind::NormalizeTexturesMultisampled
    }
}

/// Chooses how the normalize pass binds a view's textures: the depth mask
/// and the accumulation target must both be there, and the layout follows
/// the sample count.
pub fn normalize_textures_layout(depth_texture: bool, attribute_texture: bool, samples: u32) -> (r:
    Result<BindGroupLayoutKind, MissingResource>)
    ensures
        r == (if !depth_texture {
            Err(MissingResource::DepthTexture)
        } else if !attribute_texture {
            Err(MissingResource::AttributeTexture)
        } else {
            Ok(textures_layout(samples))
        }),
{
    if !depth_texture {
        return Err(MissingResource::DepthTexture);
    }
    if !attribute_texture {
        return Err(MissingResource::AttributeTexture);
    }
    if samples == 1 {
        Ok(BindGroupLayoutKind::NormalizeTextures)
    } else {
        Ok(BindGroupLayoutKind::NormalizeTexturesMultisampled)
    }
}

/// The outcome of a render command.
#[derive(Clone, Copy, Debug, PartialEq, Eq, Structural)]
pub enum RenderCommandResult {
    Success,
    Skip,
}

/// Binds the point cloud material at bind group `I`.
pub struct SetPointCloudMaterialGroup<const I: usize>;

impl<const I: usize> SetPointCloudMaterialGroup<I> {
    /// The bind group index the material is bound at.
    pub fn index() -> (r: usize)
        ensures
            r == I,
    {
        I
    }

    /// The item is drawn with its material when it has a material component
    /// whose render asset is prepared; otherwise the command skips it.
    pub fn render(has_material: bool, material_prepared: bool) -> (r: RenderCommandResult)
        ensures
            r == (if has_material && material_prepared {
                RenderCommandResult::Success
            } else {
                RenderCommandResult::Skip
            }),
    {
        if has_material && material_prepared {
            RenderCommandResult::Success
        } else {
            RenderCommandResult::Skip
        }
    }
}

/// Where a mesh's indices lie in the index buffer.
#[derive(Clone, Copy, Debug, PartialEq, Eq, Structural)]
pub struct IndexSlice {
    pub start: u32,
    pub count: u32,
}

/// The mesh and point cloud data one instanced draw needs; `None` where
/// the resource is not available.
#[derive(Clone, Copy, Debug)]
pub struct InstancedDrawInputs {
    /// The mesh's vertex range in the vertex buffer.
    pub vertex_range: Option<(u32, u32)>,
    /// `Some` for an indexed mesh: its index slice, if allocated.
    pub indexed: Option<Option<IndexSlice>>,
    /// The number of points of the item's prepared point cloud.
    pub point_count: Option<usize>,
}

/// A draw call of the quad mesh, one instance per point.
#[derive(Clone, Copy, Debug, PartialEq, Eq, Structural)]
pub enum DrawCall {
    /// Draw indices `first_index..end_index`, offset by `base_vertex`.
    Indexed { first_index: u32, end_index: u32, base_vertex: u32, instances: u32 },
    /// Draw vertices `first_vertex..end_vertex`.
    NonIndexed { first_vertex: u32, end_vertex: u32, instances: u32 },
}

/// The draw an instanced point cloud item makes, if it can be drawn.
pub open spec fn instanced_draw(i: InstancedDrawInputs) -> Option<DrawCall> {
    match (i.vertex_range, i.point_count) {
        (Some((vs, ve)), Some(n)) => match i.indexed {
            None => Some(DrawCall::NonIndexed { first_vertex: vs, end_vertex: ve, instances: n as u32 }),
            Some(None) => None,
            Some(Some(slice)) => Some(
                DrawCall::Indexed {
                    first_index: slice.start,
                    end_index: (slice.start + slice.count) as u32,
                    base_vertex: vs,
                    instances: n as u32,
                },
            ),
        },
        _ => None,
    }
}

/// Plans the instanced draw of a point cloud item: the quad mesh drawn once
/// per point, indexed where the mesh is. A missing resource skips the item.
pub fn plan_instanced_draw(i: &InstancedDrawInputs) -> (r: Option<DrawCall>)
    requires
        i.point_count.is_some() ==> i.point_count.unwrap() <= u32::MAX,
        i.indexed matches Some(Some(s)) ==> s.start + s.count <= u32::MAX,
    ensures
        r == instanced_draw(*i),
{
    let (vs, ve) = match i.vertex_range {
        Some(range) => range,
        None => return None,
    };
    let n = match i.point_count {
        Some(n) => n as u32,
        None => return None,
    };
    match i.indexed {
        None => Some(DrawCall::NonIndexed { first_vertex: vs, end_vertex: ve, instances: n }),
        Some(None) => None,
        Some(Some(slice)) => Some(
            DrawCall::Indexed {
                first_index: slice.start,
                end_index: slice.start + slice.count,
                base_vertex: vs,
                instances: n,
            },
        ),
    }
}

} // verus!
