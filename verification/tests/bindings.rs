use render_core::bindings::{
    camera_bindings, light_bindings, main_pipeline_layouts, material_bindings,
    light_pipeline_layouts, BindingKind, GroupLayoutKind, StageAccess,
};
use render_core::setup::{setup_plan, SetupResource};

#[test]
fn material_group_declares_two_texture_sampler_pairs() {
    let b = material_bindings();
    let got: Vec<(u32, BindingKind, StageAccess)> =
        b.iter().map(|d| (d.binding, d.kind, d.visibility)).collect();
    assert_eq!(
        got,
        vec![
            (0, BindingKind::SampledTexture, StageAccess::FragmentOnly),
            (1, BindingKind::TextureSampler, StageAccess::FragmentOnly),
            (2, BindingKind::SampledTexture, StageAccess::FragmentOnly),
            (3, BindingKind::TextureSampler, StageAccess::FragmentOnly),
        ]
    );
}

#[test]
fn camera_and_light_groups_hold_one_uniform_each() {
    for b in [camera_bindings(), light_bindings()] {
        assert_eq!(b.len(), 1);
        assert_eq!(b[0].binding, 0);
        assert_eq!(b[0].kind, BindingKind::UniformBuffer);
        assert_eq!(b[0].visibility, StageAccess::VertexAndFragment);
    }
}

#[test]
fn pipeline_layout_orders_match_the_shader_descriptor_sets() {
    // The main-pass shaders read textures at set 0, the camera at set 1
    // and the light at set 2; the marker shaders read the camera at set 0
    // and the light at set 1.
    assert_eq!(
        main_pipeline_layouts(),
        vec![
            GroupLayoutKind::MaterialLayout,
            GroupLayoutKind::CameraLayout,
            GroupLayoutKind::LightLayout,
        ]
    );
    assert_eq!(
        light_pipeline_layouts(),
        vec![GroupLayoutKind::CameraLayout, GroupLayoutKind::LightLayout]
    );
}

#[test]
fn setup_plan_creates_everything_once_in_a_sound_order() {
    let plan = setup_plan();
    assert_eq!(plan.len(), 14);
    // Each resource appears exactly once.
    for (i, a) in plan.iter().enumerate() {
        for (j, b) in plan.iter().enumerate() {
            assert_eq!(a == b, i == j);
        }
    }
    let position = |r: SetupResource| plan.iter().position(|x| *x == r).unwrap();
    // Layouts come before what refers to them.
    assert!(position(SetupResource::CameraBindLayout) < position(SetupResource::CameraBindGroup));
    assert!(position(SetupResource::CameraBuffer) < position(SetupResource::CameraBindGroup));
    assert!(position(SetupResource::LightBindLayout) < position(SetupResource::LightBindGroup));
    assert!(position(SetupResource::LightBuffer) < position(SetupResource::LightBindGroup));
    assert!(position(SetupResource::MaterialBindLayout) < position(SetupResource::LoadedModel));
    assert!(
        position(SetupResource::MaterialBindLayout) < position(SetupResource::MainPipelineLayout)
    );
    assert!(position(SetupResource::MainPipelineLayout) < position(SetupResource::MainPipeline));
    assert!(position(SetupResource::LightPipelineLayout) < position(SetupResource::LightPipeline));
}
