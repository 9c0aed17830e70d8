//! The binding table: which slots each bind group layout declares, and
//! which layout each pipeline expects at each descriptor-set index.
//!
//! The numeric set and binding indices are a contract between host code
//! and the shader entry points; nothing checks them until the GPU
//! validates a pipeline. This module is the one declared table both
//! sides are held to: the main-pass shaders read the material textures
//! at set 0, the camera uniform at set 1 and the light uniform at set 2;
//! the light-marker shaders read the camera at set 0 and the light at
//! set 1; every uniform sits at binding 0 of its group.

use vstd::prelude::*;
use crate::frame::{light_mesh_steps, main_mesh_steps, FrameStep, GroupRef};

verus! {

/// What one binding slot holds.
#[derive(Clone, Copy, Debug, PartialEq, Eq, Structural)]
pub enum BindingKind {
    /// A filterable 2D texture.
    SampledTexture,
    /// The sampler for a filterable texture.
    TextureSampler,
    /// A uniform buffer.
    UniformBuffer,
}

/// Which shader stages read a binding.
#[derive(Clone, Copy, Debug, PartialEq, Eq, Structural)]
pub enum StageAccess {
    FragmentOnly,
    VertexAndFragment,
}

/// One slot of a bind group layout.
#[derive(Clone, Copy, Debug, PartialEq, Eq, Structural)]
pub struct BindingDesc {
    pub binding: u32,
    pub kind: BindingKind,
    pub visibility: StageAccess,
}

/// The binding indices run consecutively from zero, so every slot is
/// both present and unique.
pub open spec fn bindings_consecutive_spec(bindings: Seq<BindingDesc>) -> bool {
    forall|k: int| 0 <= k < bindings.len() ==> (#[trigger] bindings[k]).binding == k
}

/// The material group: diffuse texture and sampler, then normal texture
/// and sampler, all read by the fragment stage.
pub open spec fn material_bindings_spec() -> Seq<BindingDesc> {
    seq![
        (BindingDesc {
            binding: 0,
            kind: BindingKind::SampledTexture,
            visibility: StageAccess::FragmentOnly,
        }),
        (BindingDesc {
            binding: 1,
            kind: BindingKind::TextureSampler,
            visibility: StageAccess::FragmentOnly,
        }),
        (BindingDesc {
            binding: 2,
            kind: BindingKind::SampledTexture,
            visibility: StageAccess::FragmentOnly,
        }),
        (BindingDesc {
            binding: 3,
            kind: BindingKind::TextureSampler,
            visibility: StageAccess::FragmentOnly,
        }),
    ]
}

/// A one-slot uniform group read by both stages, as the camera and the
/// light use it.
pub open spec fn uniform_bindings_spec() -> Seq<BindingDesc> {
    seq![
        (BindingDesc {
            binding: 0,
            kind: BindingKind::UniformBuffer,
            visibility: StageAccess::VertexAndFragment,
        }),
    ]
}

/// Build the material bind group layout.
pub fn material_bindings() -> (b: Vec<BindingDesc>)
    ensures
        b@ == material_bindings_spec(),
        bindings_consecutive_spec(b@),
{
    let mut b: Vec<BindingDesc> = Vec::new();
    b.push(BindingDesc {
        binding: 0,
        kind: BindingKind::SampledTexture,
        visibility: StageAccess::FragmentOnly,
    });
    b.push(BindingDesc {
        binding: 1,
        kind: BindingKind::TextureSampler,
        visibility: StageAccess::FragmentOnly,
    });
    b.push(BindingDesc {
        binding: 2,
        kind: BindingKind::SampledTexture,
        visibility: StageAccess::FragmentOnly,
    });
    b.push(BindingDesc {
        binding: 3,
        kind: BindingKind::TextureSampler,
        visibility: StageAccess::FragmentOnly,
    });
    assert(b@ =~= material_bindings_spec());
    b
}

/// Build the camera bind group layout: one uniform buffer at binding 0.
pub fn camera_bindings() -> (b: Vec<BindingDesc>)
    ensures
        b@ == uniform_bindings_spec(),
        bindings_consecutive_spec(b@),
{
    let mut b: Vec<BindingDesc> = Vec::new();
    b.push(BindingDesc {
        binding: 0,
        kind: BindingKind::UniformBuffer,
        visibility: StageAccess::VertexAndFragment,
    });
    assert(b@ =~= uniform_bindings_spec());
    b
}

/// Build the light bind group layout: one uniform buffer at binding 0.
pub fn light_bindings() -> (b: Vec<BindingDesc>)
    ensures
        b@ == uniform_bindings_spec(),
        bindings_consecutive_spec(b@),
{
    let mut b: Vec<BindingDesc> = Vec::new();
    b.push(BindingDesc {
        binding: 0,
        kind: BindingKind::UniformBuffer,
        visibility: StageAccess::VertexAndFragment,
    });
    assert(b@ =~= uniform_bindings_spec());
    b
}

/// The three bind group layouts, named by role.
#[derive(Clone, Copy, Debug, PartialEq, Eq, Structural)]
pub enum GroupLayoutKind {
    MaterialLayout,
    CameraLayout,
    LightLayout,
}

/// The descriptor-set order of the main pipeline's layout: material at
/// set 0, camera at set 1, light at set 2.
pub open spec fn main_pipeline_layouts_spec() -> Seq<GroupLayoutKind> {
    seq![
        GroupLayoutKind::MaterialLayout,
        GroupLayoutKind::CameraLayout,
        GroupLayoutKind::LightLayout,
    ]
}

/// The descriptor-set order of the light-marker pipeline's layout:
/// camera at set 0, light at set 1.
pub open spec fn light_pipeline_layouts_spec() -> Seq<GroupLayoutKind> {
    seq![GroupLayoutKind::CameraLayout, GroupLayoutKind::LightLayout]
}

/// Build the main pipeline's descriptor-set order.
pub fn main_pipeline_layouts() -> (g: Vec<GroupLayoutKind>)
    ensures
        g@ == main_pipeline_layouts_spec(),
{
    let mut g: Vec<GroupLayoutKind> = Vec::new();
    g.push(GroupLayoutKind::MaterialLayout);
    g.push(GroupLayoutKind::CameraLayout);
    g.push(GroupLayoutKind::LightLayout);
    assert(g@ =~= main_pipeline_layouts_spec());
    g
}

/// Build the light-marker pipeline's descriptor-set order.
pub fn light_pipeline_layouts() -> (g: Vec<GroupLayoutKind>)
    ensures
        g@ == light_pipeline_layouts_spec(),
{
    let mut g: Vec<GroupLayoutKind> = Vec::new();
    g.push(GroupLayoutKind::CameraLayout);
    g.push(GroupLayoutKind::LightLayout);
    assert(g@ =~= light_pipeline_layouts_spec());
    g
}

/// A bind group can be attached at a set index only if its layout is the
/// one the pipeline declared there.
pub open spec fn group_matches_layout(g: GroupRef, l: GroupLayoutKind) -> bool {
    match (g, l) {
        (GroupRef::Material { .. }, GroupLayoutKind::MaterialLayout) => true,
        (GroupRef::Camera, GroupLayoutKind::CameraLayout) => true,
        (GroupRef::Light, GroupLayoutKind::LightLayout) => true,
        _ => false,
    }
}

/// The draw protocol and the pipeline layouts agree: every bind-group
/// attachment of a marker-pass block and of a main-pass block lands at
/// the set index whose declared layout matches the attached group.
pub proof fn lemma_protocol_matches_pipeline_layouts(m: int, material: usize, instances: u32)
    ensures
        forall|k: int|
            0 <= k < 2 ==> ((#[trigger] light_mesh_steps(m)[k]) matches FrameStep::SetGroup {
                index,
                group,
            } && index == k && group_matches_layout(group, light_pipeline_layouts_spec()[k])),
        forall|k: int|
            0 <= k < 3 ==> ((#[trigger] main_mesh_steps(m, material, instances)[k])
                matches FrameStep::SetGroup { index, group } && index == k && group_matches_layout(
                group,
                main_pipeline_layouts_spec()[k],
            )),
{
}

} // verus!
