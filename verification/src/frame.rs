//! The per-frame protocol: how the renderer answers the surface's
//! acquire result, and the exact command sequence of a drawn frame.
//!
//! A drawn frame is two passes inside one render pass: the light-marker
//! pass (camera and light groups, one instance) and the main lit pass
//! (material, camera and light groups, every instance in one instanced
//! draw per mesh). Both uniform buffers are written before any draw of the
//! frame, so no draw ever reads another frame's state.

use vstd::prelude::*;
use crate::extent::Extent;
use crate::surface::SurfaceSync;

verus! {

/// What the presentation surface answered when the frame was requested.
#[derive(Clone, Copy, Debug, PartialEq, Eq, Structural)]
pub enum SurfaceAcquire {
    /// A presentable texture was handed out; the frame can be drawn.
    Acquired,
    /// The surface was lost and must be reconfigured before any frame.
    Lost,
    /// The surface no longer matches its configuration; skip this frame.
    Outdated,
    /// No texture arrived in time; skip this frame.
    Timeout,
    /// The device is out of memory; the renderer cannot continue.
    OutOfMemory,
}

/// The two render pipelines of the scene, in the order they are bound.
#[derive(Clone, Copy, Debug, PartialEq, Eq, Structural)]
pub enum PipelineKind {
    /// Unlit marker mesh placed and tinted by the light itself.
    LightMarker,
    /// Textured, normal-mapped, instanced main pass.
    MainLit,
}

/// One bind group as the draw protocol names it.
#[derive(Clone, Copy, Debug, PartialEq, Eq, Structural)]
pub enum GroupRef {
    /// The diffuse and normal texture bindings of one material.
    Material { material: usize },
    /// The camera uniform binding.
    Camera,
    /// The light uniform binding.
    Light,
}

/// One step of a drawn frame, in the order it must be carried out.
#[derive(Clone, Copy, Debug, PartialEq, Eq, Structural)]
pub enum FrameStep {
    /// Push the current camera uniform bytes to the camera buffer.
    WriteCameraUniform,
    /// Push the current light uniform bytes to the light buffer.
    WriteLightUniform,
    /// Begin the render pass: clear the colour target to the background
    /// colour and the depth target to the far plane.
    BeginPass,
    /// Bind the per-instance transform buffer to the given vertex slot.
    SetInstanceBuffer { slot: u32 },
    /// Bind a render pipeline.
    SetPipeline { pipeline: PipelineKind },
    /// Attach a bind group at a descriptor-set index.
    SetGroup { index: u32, group: GroupRef },
    /// Draw mesh `mesh` of the model, instances `0 .. instances`.
    DrawMesh { mesh: usize, instances: u32 },
    /// Hand the recorded commands to the device queue.
    Submit,
}

/// The shape of the loaded scene as the draw protocol needs it: the
/// material index of each mesh in draw order, how many materials exist,
/// and how many instances the instanced pass covers.
#[derive(Clone, Debug)]
pub struct SceneShape {
    /// Material index of each mesh of the model, in draw order.
    pub mesh_materials: Vec<usize>,
    /// Number of materials the model carries.
    pub material_count: usize,
    /// Number of instances drawn by each main-pass draw call.
    pub instance_count: u32,
}

impl SceneShape {
    /// Every mesh points at a material that exists.
    pub open spec fn wf(self) -> bool {
        forall|i: int|
            0 <= i < self.mesh_materials@.len()
                ==> #[trigger] self.mesh_materials@[i] < self.material_count
    }

    /// Accept the scene only when every mesh's material index is in
    /// range; a model whose meshes point at missing materials is refused.
    pub fn try_new(mesh_materials: Vec<usize>, material_count: usize, instance_count: u32) -> (r:
        Option<SceneShape>)
        ensures
            match r {
                Some(s) => {
                    &&& s.mesh_materials@ == mesh_materials@
                    &&& s.material_count == material_count
                    &&& s.instance_count == instance_count
                    &&& s.wf()
                },
                None => exists|i: int|
                    0 <= i < mesh_materials@.len()
                        && #[trigger] mesh_materials@[i] >= material_count,
            },
    {
        let mut i: usize = 0;
        while i < mesh_materials.len()
            invariant
                i <= mesh_materials@.len(),
                forall|j: int| 0 <= j < i ==> #[trigger] mesh_materials@[j] < material_count,
            decreases mesh_materials@.len() - i,
        {
            if mesh_materials[i] >= material_count {
                return None;
            }
            i = i + 1;
        }
        Some(SceneShape { mesh_materials, material_count, instance_count })
    }
}

/// The renderer's answer to one acquire result.
#[derive(Debug)]
pub enum FrameOutcome {
    /// Draw the frame by carrying out the steps in order.
    Render { steps: Vec<FrameStep> },
    /// Reconfigure the surface to the given extent; the frame is not drawn.
    Reconfigure { size: Extent },
    /// Skip this frame and try again next tick.
    SkipFrame,
    /// Unrecoverable; the renderer must shut down.
    Fatal,
}

/// The steps that draw one mesh in the light-marker pass: camera group,
/// light group, one un-instanced draw.
pub open spec fn light_mesh_steps(m: int) -> Seq<FrameStep> {
    seq![
        (FrameStep::SetGroup { index: 0, group: GroupRef::Camera }),
        (FrameStep::SetGroup { index: 1, group: GroupRef::Light }),
        (FrameStep::DrawMesh { mesh: m as usize, instances: 1 }),
    ]
}

/// The light-marker pass over the first `mesh_count` meshes, in order.
pub open spec fn light_pass_steps(mesh_count: nat) -> Seq<FrameStep>
    decreases mesh_count,
{
    if mesh_count == 0 {
        Seq::empty()
    } else {
        light_pass_steps((mesh_count - 1) as nat) + light_mesh_steps(mesh_count as int - 1)
    }
}

/// The steps that draw one mesh in the main lit pass: its material group,
/// the camera group, the light group, one instanced draw.
pub open spec fn main_mesh_steps(m: int, material: usize, instances: u32) -> Seq<FrameStep> {
    seq![
        (FrameStep::SetGroup { index: 0, group: GroupRef::Material { material } }),
        (FrameStep::SetGroup { index: 1, group: GroupRef::Camera }),
        (FrameStep::SetGroup { index: 2, group: GroupRef::Light }),
        (FrameStep::DrawMesh { mesh: m as usize, instances }),
    ]
}

/// The main lit pass over every mesh whose material stands in `mats`.
pub open spec fn main_pass_steps(mats: Seq<usize>, instances: u32) -> Seq<FrameStep>
    decreases mats.len(),
{
    if mats.len() == 0 {
        Seq::empty()
    } else {
        main_pass_steps(mats.drop_last(), instances)
            + main_mesh_steps(mats.len() - 1, mats.last(), instances)
    }
}

/// The fixed opening of every drawn frame: both uniform writes, the pass
/// begin, the instance buffer bind, and the light-marker pipeline.
pub open spec fn frame_prologue() -> Seq<FrameStep> {
    seq![
        FrameStep::WriteCameraUniform,
        FrameStep::WriteLightUniform,
        FrameStep::BeginPass,
        (FrameStep::SetInstanceBuffer { slot: 1 }),
        (FrameStep::SetPipeline { pipeline: PipelineKind::LightMarker }),
    ]
}

/// The whole command sequence of one drawn frame.
pub open spec fn frame_steps_spec(scene: SceneShape) -> Seq<FrameStep> {
    frame_prologue() + light_pass_steps(scene.mesh_materials@.len())
        + seq![(FrameStep::SetPipeline { pipeline: PipelineKind::MainLit })]
        + main_pass_steps(scene.mesh_materials@, scene.instance_count)
        + seq![FrameStep::Submit]
}

/// Record the full command sequence for one drawn frame.
pub fn plan_frame_steps(scene: &SceneShape) -> (steps: Vec<FrameStep>)
    ensures
        steps@ == frame_steps_spec(*scene),
{
    let ghost mats = scene.mesh_materials@;
    let mesh_count = scene.mesh_materials.len();
    let mut steps: Vec<FrameStep> = Vec::new();
    steps.push(FrameStep::WriteCameraUniform);
    steps.push(FrameStep::WriteLightUniform);
    steps.push(FrameStep::BeginPass);
    steps.push(FrameStep::SetInstanceBuffer { slot: 1 });
    steps.push(FrameStep::SetPipeline { pipeline: PipelineKind::LightMarker });
    assert(steps@ =~= frame_prologue());

    let mut m: usize = 0;
    while m < mesh_count
        invariant
            m <= mesh_count,
            mesh_count == mats.len(),
            steps@ =~= frame_prologue() + light_pass_steps(m as nat),
        decreases mesh_count - m,
    {
        steps.push(FrameStep::SetGroup { index: 0, group: GroupRef::Camera });
        steps.push(FrameStep::SetGroup { index: 1, group: GroupRef::Light });
        steps.push(FrameStep::DrawMesh { mesh: m, instances: 1 });
        proof {
            assert(light_pass_steps((m + 1) as nat) == light_pass_steps(m as nat)
                + light_mesh_steps(m as int));
        }
        m = m + 1;
    }

    steps.push(FrameStep::SetPipeline { pipeline: PipelineKind::MainLit });

    let instances = scene.instance_count;
    let mut k: usize = 0;
    while k < mesh_count
        invariant
            k <= mesh_count,
            mesh_count == mats.len(),
            instances == scene.instance_count,
            mats == scene.mesh_materials@,
            steps@ =~= frame_prologue() + light_pass_steps(mats.len())
                + seq![(FrameStep::SetPipeline { pipeline: PipelineKind::MainLit })]
                + main_pass_steps(mats.take(k as int), instances),
        decreases mesh_count - k,
    {
        let material = scene.mesh_materials[k];
        steps.push(FrameStep::SetGroup { index: 0, group: GroupRef::Material { material } });
        steps.push(FrameStep::SetGroup { index: 1, group: GroupRef::Camera });
        steps.push(FrameStep::SetGroup { index: 2, group: GroupRef::Light });
        steps.push(FrameStep::DrawMesh { mesh: k, instances });
        proof {
            let taken = mats.take(k as int + 1);
            assert(taken.drop_last() =~= mats.take(k as int));
            assert(taken.last() == mats[k as int]);
            assert(main_pass_steps(taken, instances) == main_pass_steps(taken.drop_last(),
                instances) + main_mesh_steps(taken.len() - 1, taken.last(), instances));
        }
        k = k + 1;
    }

    steps.push(FrameStep::Submit);
    proof {
        assert(mats.take(mats.len() as int) =~= mats);
        assert(steps@ =~= frame_steps_spec(*scene));
    }
    steps
}

/// A step that pushes uniform bytes to a GPU buffer.
pub open spec fn is_uniform_write(s: FrameStep) -> bool {
    s is WriteCameraUniform || s is WriteLightUniform
}

/// What may stand inside the light-marker pass: bind-group attachments and
/// un-instanced draws only.
spec fn light_elem_ok(s: FrameStep) -> bool {
    match s {
        FrameStep::SetGroup { .. } => true,
        FrameStep::DrawMesh { instances, .. } => instances == 1,
        _ => false,
    }
}

/// What may stand inside the main lit pass: bind-group attachments and
/// draws over the full instance range only.
spec fn main_elem_ok(s: FrameStep, instances: u32) -> bool {
    match s {
        FrameStep::SetGroup { .. } => true,
        FrameStep::DrawMesh { instances: n, .. } => n == instances,
        _ => false,
    }
}

proof fn lemma_light_pass_elems(c: nat)
    ensures
        light_pass_steps(c).len() == 3 * c,
        forall|i: int| 0 <= i < 3 * c ==> light_elem_ok(#[trigger] light_pass_steps(c)[i]),
    decreases c,
{
    if c > 0 {
        lemma_light_pass_elems((c - 1) as nat);
    }
}

proof fn lemma_main_pass_elems(mats: Seq<usize>, instances: u32)
    ensures
        main_pass_steps(mats, instances).len() == 4 * mats.len(),
        forall|i: int|
            0 <= i < 4 * mats.len() ==> main_elem_ok(
                #[trigger] main_pass_steps(mats, instances)[i],
                instances,
            ),
    decreases mats.len(),
{
    if mats.len() > 0 {
        lemma_main_pass_elems(mats.drop_last(), instances);
    }
}

/// The light-marker pass is the per-mesh blocks laid end to end: mesh `m`
/// occupies steps `3m .. 3m + 3` of the pass.
pub proof fn lemma_light_pass_blocks(c: nat)
    ensures
        light_pass_steps(c).len() == 3 * c,
        forall|m: int|
            0 <= m < c ==> #[trigger] light_pass_steps(c).subrange(3 * m, 3 * m + 3)
                == light_mesh_steps(m),
    decreases c,
{
    if c > 0 {
        lemma_light_pass_blocks((c - 1) as nat);
        let prev = light_pass_steps((c - 1) as nat);
        let cur = light_pass_steps(c);
        assert forall|m: int|
            0 <= m < c implies #[trigger] cur.subrange(3 * m, 3 * m + 3)
            == light_mesh_steps(m) by {
            if m < c - 1 {
                assert(prev.subrange(3 * m, 3 * m + 3) == light_mesh_steps(m));
                assert(cur.subrange(3 * m, 3 * m + 3) =~= prev.subrange(3 * m, 3 * m + 3));
            } else {
                assert(cur.subrange(3 * m, 3 * m + 3) =~= light_mesh_steps(m));
            }
        }
    }
}

/// The main lit pass is the per-mesh blocks laid end to end: mesh `m`
/// occupies steps `4m .. 4m + 4` of the pass and binds its own material.
pub proof fn lemma_main_pass_blocks(mats: Seq<usize>, instances: u32)
    ensures
        main_pass_steps(mats, instances).len() == 4 * mats.len(),
        forall|m: int|
            0 <= m < mats.len() ==> #[trigger] main_pass_steps(mats, instances).subrange(
                4 * m,
                4 * m + 4,
            ) == main_mesh_steps(m, mats[m], instances),
    decreases mats.len(),
{
    if mats.len() > 0 {
        lemma_main_pass_blocks(mats.drop_last(), instances);
        let prev = main_pass_steps(mats.drop_last(), instances);
        let cur = main_pass_steps(mats, instances);
        assert forall|m: int|
            0 <= m < mats.len() implies #[trigger] cur.subrange(4 * m, 4 * m + 4)
            == main_mesh_steps(m, mats[m], instances) by {
            if m < mats.len() - 1 {
                assert(prev.subrange(4 * m, 4 * m + 4) == main_mesh_steps(
                    m,
                    mats.drop_last()[m],
                    instances,
                ));
                assert(cur.subrange(4 * m, 4 * m + 4) =~= prev.subrange(4 * m, 4 * m + 4));
            } else {
                assert(cur.subrange(4 * m, 4 * m + 4) =~= main_mesh_steps(m, mats[m], instances));
            }
        }
    }
}

/// Where each region of the frame sequence stands.
proof fn lemma_frame_regions(scene: SceneShape)
    ensures
        ({
            let s = frame_steps_spec(scene);
            let mats = scene.mesh_materials@;
            let mc = mats.len() as int;
            &&& s.len() == 7 + 7 * mc
            &&& s[0] == FrameStep::WriteCameraUniform
            &&& s[1] == FrameStep::WriteLightUniform
            &&& s[2] == FrameStep::BeginPass
            &&& s[3] == (FrameStep::SetInstanceBuffer { slot: 1 })
            &&& s[4] == (FrameStep::SetPipeline { pipeline: PipelineKind::LightMarker })
            &&& forall|i: int|
                5 <= i < 5 + 3 * mc ==> #[trigger] s[i] == light_pass_steps(mc as nat)[i - 5]
            &&& s[5 + 3 * mc] == (FrameStep::SetPipeline { pipeline: PipelineKind::MainLit })
            &&& forall|i: int|
                6 + 3 * mc <= i < 6 + 7 * mc ==> #[trigger] s[i] == main_pass_steps(
                    mats,
                    scene.instance_count,
                )[i - (6 + 3 * mc)]
            &&& s[6 + 7 * mc] == FrameStep::Submit
        }),
{
    let mats = scene.mesh_materials@;
    let mc = mats.len() as int;
    lemma_light_pass_elems(mc as nat);
    lemma_main_pass_elems(mats, scene.instance_count);
}

/// Both uniform buffers are written before every draw call of the frame:
/// no draw can read another frame's camera or light state.
pub proof fn lemma_writes_precede_draws(scene: SceneShape)
    ensures
        ({
            let s = frame_steps_spec(scene);
            forall|i: int, j: int|
                0 <= i < s.len() && 0 <= j < s.len() && is_uniform_write(#[trigger] s[i]) && (
                #[trigger] s[j]) is DrawMesh ==> i < j
        }),
{
    let s = frame_steps_spec(scene);
    let mats = scene.mesh_materials@;
    let mc = mats.len() as int;
    lemma_frame_regions(scene);
    lemma_light_pass_elems(mc as nat);
    lemma_main_pass_elems(mats, scene.instance_count);
    assert forall|i: int, j: int|
        0 <= i < s.len() && 0 <= j < s.len() && is_uniform_write(#[trigger] s[i]) && (
        #[trigger] s[j]) is DrawMesh implies i < j by {
        if i >= 2 {
            if 5 <= i < 5 + 3 * mc {
                assert(light_elem_ok(light_pass_steps(mc as nat)[i - 5]));
            } else if 6 + 3 * mc <= i < 6 + 7 * mc {
                assert(main_elem_ok(
                    main_pass_steps(mats, scene.instance_count)[i - (6 + 3 * mc)],
                    scene.instance_count,
                ));
            }
            assert(!is_uniform_write(s[i]));
        }
    }
}

/// One frame binds exactly two pipelines, the light marker first and the
/// main pipeline after every marker draw; every draw before the main bind
/// uses one instance, every draw after it covers the whole instance range,
/// and no draw is issued before a pipeline is bound.
pub proof fn lemma_pass_order(scene: SceneShape)
    ensures
        ({
            let s = frame_steps_spec(scene);
            let mc = scene.mesh_materials@.len() as int;
            &&& s[4] == (FrameStep::SetPipeline { pipeline: PipelineKind::LightMarker })
            &&& s[5 + 3 * mc] == (FrameStep::SetPipeline { pipeline: PipelineKind::MainLit })
            &&& forall|i: int|
                0 <= i < s.len() && (#[trigger] s[i]) is SetPipeline ==> i == 4 || i == 5 + 3 * mc
            &&& forall|i: int|
                0 <= i < 5 + 3 * mc && (#[trigger] s[i]) is DrawMesh ==> s[i]->instances == 1
            &&& forall|i: int|
                5 + 3 * mc < i < s.len() && (#[trigger] s[i]) is DrawMesh ==> s[i]->instances
                    == scene.instance_count
            &&& forall|i: int| 0 <= i < s.len() && (#[trigger] s[i]) is DrawMesh ==> 4 < i
        }),
{
    let s = frame_steps_spec(scene);
    let mats = scene.mesh_materials@;
    let mc = mats.len() as int;
    lemma_frame_regions(scene);
    lemma_light_pass_elems(mc as nat);
    lemma_main_pass_elems(mats, scene.instance_count);
    assert forall|i: int|
        0 <= i < s.len() && (#[trigger] s[i]) is SetPipeline implies i == 4 || i == 5 + 3
        * mc by {
        if 5 <= i < 5 + 3 * mc {
            assert(light_elem_ok(light_pass_steps(mc as nat)[i - 5]));
        } else if 6 + 3 * mc <= i < 6 + 7 * mc {
            assert(main_elem_ok(
                main_pass_steps(mats, scene.instance_count)[i - (6 + 3 * mc)],
                scene.instance_count,
            ));
        }
    }
    assert forall|i: int|
        0 <= i < 5 + 3 * mc && (#[trigger] s[i]) is DrawMesh implies s[i]->instances == 1 by {
        if 5 <= i < 5 + 3 * mc {
            assert(light_elem_ok(light_pass_steps(mc as nat)[i - 5]));
        }
    }
    assert forall|i: int|
        5 + 3 * mc < i < s.len() && (#[trigger] s[i]) is DrawMesh implies s[i]->instances
        == scene.instance_count by {
        if 6 + 3 * mc <= i < 6 + 7 * mc {
            assert(main_elem_ok(
                main_pass_steps(mats, scene.instance_count)[i - (6 + 3 * mc)],
                scene.instance_count,
            ));
        }
    }
}

/// Each draw stands at the end of its own block of bind-group
/// attachments, attached in ascending set order: camera then light for a
/// marker draw; the mesh's own material, camera, then light for a main
/// draw. Block `m` of the marker pass starts at step `5 + 3m`; block `m`
/// of the main pass starts at step `6 + 3c + 4m` for a model of `c`
/// meshes.
pub proof fn lemma_draw_protocol(scene: SceneShape)
    ensures
        ({
            let s = frame_steps_spec(scene);
            let mats = scene.mesh_materials@;
            let mc = mats.len() as int;
            &&& forall|m: int|
                0 <= m < mc ==> #[trigger] s.subrange(5 + 3 * m, 5 + 3 * m + 3)
                    == light_mesh_steps(m)
            &&& forall|m: int|
                0 <= m < mc ==> #[trigger] s.subrange(6 + 3 * mc + 4 * m, 6 + 3 * mc + 4 * m + 4)
                    == main_mesh_steps(m, mats[m], scene.instance_count)
        }),
{
    let s = frame_steps_spec(scene);
    let mats = scene.mesh_materials@;
    let mc = mats.len() as int;
    lemma_frame_regions(scene);
    lemma_light_pass_blocks(mc as nat);
    lemma_main_pass_blocks(mats, scene.instance_count);
    assert forall|m: int|
        0 <= m < mc implies #[trigger] s.subrange(5 + 3 * m, 5 + 3 * m + 3) == light_mesh_steps(
        m,
    ) by {
        let lp = light_pass_steps(mc as nat);
        assert(lp.subrange(3 * m, 3 * m + 3) == light_mesh_steps(m));
        assert(s.subrange(5 + 3 * m, 5 + 3 * m + 3) =~= lp.subrange(3 * m, 3 * m + 3));
    }
    assert forall|m: int|
        0 <= m < mc implies #[trigger] s.subrange(6 + 3 * mc + 4 * m, 6 + 3 * mc + 4 * m + 4)
        == main_mesh_steps(m, mats[m], scene.instance_count) by {
        let mp = main_pass_steps(mats, scene.instance_count);
        assert(mp.subrange(4 * m, 4 * m + 4) == main_mesh_steps(m, mats[m], scene.instance_count));
        assert(s.subrange(6 + 3 * mc + 4 * m, 6 + 3 * mc + 4 * m + 4) =~= mp.subrange(
            4 * m,
            4 * m + 4,
        ));
    }
}

/// Answer one acquire result, as the frame loop must act on it: a lost
/// surface asks for exactly one reconfiguration at the last-known size and
/// the frame is not drawn; an outdated or timed-out surface skips the
/// frame; memory exhaustion is fatal; an acquired texture is drawn with
/// the full frame sequence.
pub fn respond_to_acquire(scene: &SceneShape, sync: &SurfaceSync, acquire: SurfaceAcquire) -> (out:
    FrameOutcome)
    ensures
        acquire is Acquired ==> (out matches FrameOutcome::Render { steps } && steps@
            == frame_steps_spec(*scene)),
        acquire is Lost ==> (out matches FrameOutcome::Reconfigure { size } && size
            == sync.config),
        acquire is Outdated || acquire is Timeout ==> out is SkipFrame,
        acquire is OutOfMemory ==> out is Fatal,
{
    match acquire {
        SurfaceAcquire::Acquired => FrameOutcome::Render { steps: plan_frame_steps(scene) },
        SurfaceAcquire::Lost => FrameOutcome::Reconfigure { size: sync.config },
        SurfaceAcquire::Outdated => FrameOutcome::SkipFrame,
        SurfaceAcquire::Timeout => FrameOutcome::SkipFrame,
        SurfaceAcquire::OutOfMemory => FrameOutcome::Fatal,
    }
}

} // verus!
