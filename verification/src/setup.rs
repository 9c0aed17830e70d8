//! The order in which the device-side objects are created at startup.
//!
//! GPU objects refer to one another at creation time: a bind group needs
//! its layout and its buffer, a pipeline layout needs every group layout
//! it lists, a pipeline needs its layout, and the model loader needs the
//! material group layout it will build bind groups against. This module
//! fixes the one creation order the renderer uses and proves it sound:
//! nothing is created before everything it refers to.

use vstd::prelude::*;

verus! {

/// Every device-side object the renderer creates at startup, named by
/// role.
#[derive(Clone, Copy, Debug, PartialEq, Eq, Structural)]
pub enum SetupResource {
    /// Bind group layout for a material's textures and samplers.
    MaterialBindLayout,
    /// Bind group layout for the camera uniform.
    CameraBindLayout,
    /// Bind group layout for the light uniform.
    LightBindLayout,
    /// Uniform buffer holding the camera uniform bytes.
    CameraBuffer,
    /// Uniform buffer holding the light uniform bytes.
    LightBuffer,
    /// Vertex buffer holding one record per instance.
    InstanceBuffer,
    /// Bind group tying the camera buffer to its layout.
    CameraBindGroup,
    /// Bind group tying the light buffer to its layout.
    LightBindGroup,
    /// Depth texture sized to the surface configuration.
    DepthTexture,
    /// The loaded model with its per-material bind groups.
    LoadedModel,
    /// Pipeline layout of the main pass.
    MainPipelineLayout,
    /// Pipeline layout of the light-marker pass.
    LightPipelineLayout,
    /// The main lit pipeline.
    MainPipeline,
    /// The light-marker pipeline.
    LightPipeline,
}

/// What must already exist when a resource is created.
pub open spec fn prerequisites(r: SetupResource) -> Seq<SetupResource> {
    match r {
        SetupResource::CameraBindGroup => seq![
            SetupResource::CameraBindLayout,
            SetupResource::CameraBuffer,
        ],
        SetupResource::LightBindGroup => seq![
            SetupResource::LightBindLayout,
            SetupResource::LightBuffer,
        ],
        SetupResource::LoadedModel => seq![SetupResource::MaterialBindLayout],
        SetupResource::MainPipelineLayout => seq![
            SetupResource::MaterialBindLayout,
            SetupResource::CameraBindLayout,
            SetupResource::LightBindLayout,
        ],
        SetupResource::LightPipelineLayout => seq![
            SetupResource::CameraBindLayout,
            SetupResource::LightBindLayout,
        ],
        SetupResource::MainPipeline => seq![SetupResource::MainPipelineLayout],
        SetupResource::LightPipeline => seq![SetupResource::LightPipelineLayout],
        _ => Seq::empty(),
    }
}

/// `r` was created by one of the first `k` steps of the plan.
pub open spec fn created_before(plan: Seq<SetupResource>, k: int, r: SetupResource) -> bool {
    exists|j: int| 0 <= j < k && plan[j] == r
}

/// A creation order is sound when every step finds all its prerequisites
/// already created.
pub open spec fn ordered_spec(plan: Seq<SetupResource>) -> bool {
    forall|k: int, d: int|
        0 <= k < plan.len() && 0 <= d < prerequisites(plan[k]).len() ==> created_before(
            plan,
            k,
            #[trigger] prerequisites(plan[k])[d],
        )
}

/// The creation order the renderer uses, one step per resource.
pub open spec fn setup_plan_spec() -> Seq<SetupResource> {
    seq![
        SetupResource::MaterialBindLayout,
        SetupResource::CameraBuffer,
        SetupResource::CameraBindLayout,
        SetupResource::CameraBindGroup,
        SetupResource::LightBuffer,
        SetupResource::LightBindLayout,
        SetupResource::LightBindGroup,
        SetupResource::DepthTexture,
        SetupResource::LoadedModel,
        SetupResource::MainPipelineLayout,
        SetupResource::MainPipeline,
        SetupResource::LightPipelineLayout,
        SetupResource::LightPipeline,
        SetupResource::InstanceBuffer,
    ]
}

/// Build the startup plan: each resource once, nothing before what it
/// refers to.
pub fn setup_plan() -> (plan: Vec<SetupResource>)
    ensures
        plan@ == setup_plan_spec(),
        ordered_spec(plan@),
        forall|i: int, j: int| 0 <= i < j < plan@.len() ==> plan@[i] != plan@[j],
        forall|r: SetupResource| plan@.contains(r),
{
    let mut plan: Vec<SetupResource> = Vec::new();
    plan.push(SetupResource::MaterialBindLayout);
    plan.push(SetupResource::CameraBuffer);
    plan.push(SetupResource::CameraBindLayout);
    plan.push(SetupResource::CameraBindGroup);
    plan.push(SetupResource::LightBuffer);
    plan.push(SetupResource::LightBindLayout);
    plan.push(SetupResource::LightBindGroup);
    plan.push(SetupResource::DepthTexture);
    plan.push(SetupResource::LoadedModel);
    plan.push(SetupResource::MainPipelineLayout);
    plan.push(SetupResource::MainPipeline);
    plan.push(SetupResource::LightPipelineLayout);
    plan.push(SetupResource::LightPipeline);
    plan.push(SetupResource::InstanceBuffer);
    assert(plan@ =~= setup_plan_spec());
    proof {
        lemma_setup_plan_ordered();
        lemma_setup_plan_complete();
    }
    plan
}

/// The fixed plan is sound: every step's prerequisites stand earlier in
/// it.
pub proof fn lemma_setup_plan_ordered()
    ensures
        ordered_spec(setup_plan_spec()),
        forall|i: int, j: int|
            0 <= i < j < setup_plan_spec().len() ==> setup_plan_spec()[i] != setup_plan_spec()[j],
{
    let plan = setup_plan_spec();
    assert forall|k: int, d: int|
        0 <= k < plan.len() && 0 <= d < prerequisites(plan[k]).len() implies created_before(
        plan,
        k,
        #[trigger] prerequisites(plan[k])[d],
    ) by {
        let need = prerequisites(plan[k])[d];
        if k == 3 {
            assert(plan[2] == SetupResource::CameraBindLayout);
            assert(plan[1] == SetupResource::CameraBuffer);
            assert(created_before(plan, k, need));
        } else if k == 6 {
            assert(plan[5] == SetupResource::LightBindLayout);
            assert(plan[4] == SetupResource::LightBuffer);
            assert(created_before(plan, k, need));
        } else if k == 8 {
            assert(plan[0] == SetupResource::MaterialBindLayout);
            assert(created_before(plan, k, need));
        } else if k == 9 {
            assert(plan[0] == SetupResource::MaterialBindLayout);
            assert(plan[2] == SetupResource::CameraBindLayout);
            assert(plan[5] == SetupResource::LightBindLayout);
            assert(created_before(plan, k, need));
        } else if k == 10 {
            assert(plan[9] == SetupResource::MainPipelineLayout);
            assert(created_before(plan, k, need));
        } else if k == 11 {
            assert(plan[2] == SetupResource::CameraBindLayout);
            assert(plan[5] == SetupResource::LightBindLayout);
            assert(created_before(plan, k, need));
        } else if k == 12 {
            assert(plan[11] == SetupResource::LightPipelineLayout);
            assert(created_before(plan, k, need));
        } else {
            assert(prerequisites(plan[k]).len() == 0);
        }
    }
}

/// The fixed plan creates every resource the renderer needs.
pub proof fn lemma_setup_plan_complete()
    ensures
        forall|r: SetupResource| setup_plan_spec().contains(r),
{
    let plan = setup_plan_spec();
    assert forall|r: SetupResource| plan.contains(r) by {
        match r {
            SetupResource::MaterialBindLayout => assert(plan[0] == r),
            SetupResource::CameraBuffer => assert(plan[1] == r),
            SetupResource::CameraBindLayout => assert(plan[2] == r),
            SetupResource::CameraBindGroup => assert(plan[3] == r),
            SetupResource::LightBuffer => assert(plan[4] == r),
            SetupResource::LightBindLayout => assert(plan[5] == r),
            SetupResource::LightBindGroup => assert(plan[6] == r),
            SetupResource::DepthTexture => assert(plan[7] == r),
            SetupResource::LoadedModel => assert(plan[8] == r),
            SetupResource::MainPipelineLayout => assert(plan[9] == r),
            SetupResource::MainPipeline => assert(plan[10] == r),
            SetupResource::LightPipelineLayout => assert(plan[11] == r),
            SetupResource::LightPipeline => assert(plan[12] == r),
            SetupResource::InstanceBuffer => assert(plan[13] == r),
        }
    }
}

} // verus!
