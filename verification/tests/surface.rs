use render_core::extent::Extent;
use render_core::surface::{ResizeAction, SurfaceSync};

fn all_sizes_agree(s: &SurfaceSync) -> bool {
    s.depth == s.config && s.aspect_source == s.config
}

#[test]
fn new_sync_starts_agreed() {
    let s = SurfaceSync::new(Extent::new(800, 600));
    assert!(all_sizes_agree(&s));
    assert_eq!(s.config, Extent::new(800, 600));
}

#[test]
fn drawable_resize_moves_all_three_sizes() {
    let mut s = SurfaceSync::new(Extent::new(800, 600));
    let actions = s.resize(Extent::new(1024, 768));
    assert_eq!(
        actions,
        vec![
            ResizeAction::ConfigureSurface,
            ResizeAction::RebuildDepthTexture,
            ResizeAction::UpdateProjectionAspect,
        ]
    );
    assert_eq!(s.config, Extent::new(1024, 768));
    assert_eq!(s.depth, Extent::new(1024, 768));
    assert_eq!(s.aspect_source, Extent::new(1024, 768));
}

#[test]
fn zero_width_resize_is_a_no_op() {
    let mut s = SurfaceSync::new(Extent::new(800, 600));
    let before = s;
    let actions = s.resize(Extent::new(0, 400));
    assert!(actions.is_empty());
    assert_eq!(s, before);
}

#[test]
fn zero_height_resize_is_a_no_op() {
    let mut s = SurfaceSync::new(Extent::new(800, 600));
    let before = s;
    let actions = s.resize(Extent::new(400, 0));
    assert!(actions.is_empty());
    assert_eq!(s, before);
}

#[test]
fn any_resize_sequence_keeps_the_sizes_agreed() {
    let mut s = SurfaceSync::new(Extent::new(640, 480));
    let requests = [
        Extent::new(1920, 1080),
        Extent::new(0, 0),
        Extent::new(1, 1),
        Extent::new(0, 500),
        Extent::new(500, 0),
        Extent::new(2560, 1440),
        Extent::new(333, 777),
    ];
    for r in requests {
        s.resize(r);
        assert!(all_sizes_agree(&s), "after resize to {:?}", r);
        assert!(s.config.width > 0 && s.config.height > 0);
    }
    assert_eq!(s.config, Extent::new(333, 777));
}
