use render_core::extent::Extent;
use render_core::frame::{
    FrameOutcome, FrameStep, GroupRef, PipelineKind, SceneShape, SurfaceAcquire,
};
use render_core::orchestrator::Orchestrator;

fn orchestrator() -> Orchestrator {
    // Two meshes over two materials, a 10 by 10 instance grid.
    Orchestrator::new(Extent::new(800, 600), vec![0, 1], 2, 10).unwrap()
}

#[test]
fn scene_with_missing_material_is_refused() {
    assert!(SceneShape::try_new(vec![0, 2], 2, 100).is_none());
    assert!(Orchestrator::new(Extent::new(800, 600), vec![0, 2], 2, 10).is_none());
    assert!(SceneShape::try_new(vec![0, 1, 1, 0], 2, 100).is_some());
}

#[test]
fn lost_surface_reconfigures_with_last_known_size() {
    let o = orchestrator();
    match o.respond(SurfaceAcquire::Lost) {
        FrameOutcome::Reconfigure { size } => assert_eq!(size, Extent::new(800, 600)),
        other => panic!("expected a reconfiguration, got {:?}", other),
    }
}

#[test]
fn lost_surface_after_resize_uses_the_new_size() {
    let mut o = orchestrator();
    o.resize(Extent::new(1024, 768));
    match o.respond(SurfaceAcquire::Lost) {
        FrameOutcome::Reconfigure { size } => assert_eq!(size, Extent::new(1024, 768)),
        other => panic!("expected a reconfiguration, got {:?}", other),
    }
}

#[test]
fn outdated_and_timeout_skip_the_frame() {
    let o = orchestrator();
    assert!(matches!(o.respond(SurfaceAcquire::Outdated), FrameOutcome::SkipFrame));
    assert!(matches!(o.respond(SurfaceAcquire::Timeout), FrameOutcome::SkipFrame));
}

#[test]
fn out_of_memory_is_fatal() {
    let o = orchestrator();
    assert!(matches!(o.respond(SurfaceAcquire::OutOfMemory), FrameOutcome::Fatal));
}

#[test]
fn acquired_frame_follows_the_draw_protocol_exactly() {
    let o = orchestrator();
    let steps = match o.respond(SurfaceAcquire::Acquired) {
        FrameOutcome::Render { steps } => steps,
        other => panic!("expected a drawn frame, got {:?}", other),
    };
    let expected = vec![
        // Both uniforms are pushed before anything draws.
        FrameStep::WriteCameraUniform,
        FrameStep::WriteLightUniform,
        FrameStep::BeginPass,
        FrameStep::SetInstanceBuffer { slot: 1 },
        // Light-marker pass: camera and light groups, one instance.
        FrameStep::SetPipeline { pipeline: PipelineKind::LightMarker },
        FrameStep::SetGroup { index: 0, group: GroupRef::Camera },
        FrameStep::SetGroup { index: 1, group: GroupRef::Light },
        FrameStep::DrawMesh { mesh: 0, instances: 1 },
        FrameStep::SetGroup { index: 0, group: GroupRef::Camera },
        FrameStep::SetGroup { index: 1, group: GroupRef::Light },
        FrameStep::DrawMesh { mesh: 1, instances: 1 },
        // Main pass: material, camera, light; every instance in one call.
        FrameStep::SetPipeline { pipeline: PipelineKind::MainLit },
        FrameStep::SetGroup { index: 0, group: GroupRef::Material { material: 0 } },
        FrameStep::SetGroup { index: 1, group: GroupRef::Camera },
        FrameStep::SetGroup { index: 2, group: GroupRef::Light },
        FrameStep::DrawMesh { mesh: 0, instances: 100 },
        FrameStep::SetGroup { index: 0, group: GroupRef::Material { material: 1 } },
        FrameStep::SetGroup { index: 1, group: GroupRef::Camera },
        FrameStep::SetGroup { index: 2, group: GroupRef::Light },
        FrameStep::DrawMesh { mesh: 1, instances: 100 },
        FrameStep::Submit,
    ];
    assert_eq!(steps, expected);
}

#[test]
fn uniform_writes_precede_every_draw() {
    let o = Orchestrator::new(Extent::new(64, 64), vec![1, 0, 1], 2, 4).unwrap();
    let steps = match o.respond(SurfaceAcquire::Acquired) {
        FrameOutcome::Render { steps } => steps,
        other => panic!("expected a drawn frame, got {:?}", other),
    };
    let last_write = steps
        .iter()
        .rposition(|s| {
            matches!(s, FrameStep::WriteCameraUniform | FrameStep::WriteLightUniform)
        })
        .unwrap();
    let first_draw = steps
        .iter()
        .position(|s| matches!(s, FrameStep::DrawMesh { .. }))
        .unwrap();
    assert!(last_write < first_draw);
}

#[test]
fn meshless_model_still_submits_an_empty_frame() {
    let o = Orchestrator::new(Extent::new(64, 64), vec![], 0, 2).unwrap();
    let steps = match o.respond(SurfaceAcquire::Acquired) {
        FrameOutcome::Render { steps } => steps,
        other => panic!("expected a drawn frame, got {:?}", other),
    };
    assert_eq!(steps.len(), 7);
    assert_eq!(steps[6], FrameStep::Submit);
    assert!(steps.iter().all(|s| !matches!(s, FrameStep::DrawMesh { .. })));
}

#[test]
fn resize_leaves_scene_and_grid_alone() {
    let mut o = orchestrator();
    let slots_before = o.slots.clone();
    o.resize(Extent::new(5, 5));
    o.resize(Extent::new(0, 0));
    assert_eq!(o.scene.mesh_materials, vec![0, 1]);
    assert_eq!(o.scene.instance_count, 100);
    assert_eq!(o.slots, slots_before);
    assert_eq!(o.surface.config, Extent::new(5, 5));
}
