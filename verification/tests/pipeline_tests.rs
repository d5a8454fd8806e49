use mandelbrot_viewer::frac::Frac;
use mandelbrot_viewer::pipeline::{
    classify_acquire_error, workgroup_count, AcquireDisposition, AcquireError, Viewer,
};
use mandelbrot_viewer::surface::{choose_format, SurfaceFormat, SurfaceManager};

fn rgba() -> SurfaceFormat {
    SurfaceFormat { code: 1, srgb: true }
}

fn viewer() -> Viewer {
    Viewer::new(rgba(), 0, 800, 600)
}

#[test]
fn configure_rejects_zero_width() {
    let mut m = SurfaceManager::new(rgba(), 0, 640, 480);
    assert!(m.configure(640, 480));
    let before = m;
    assert!(!m.configure(0, 480));
    assert_eq!(m, before);
}

#[test]
fn configure_rejects_zero_height() {
    let mut m = SurfaceManager::new(rgba(), 0, 640, 480);
    assert!(m.configure(640, 480));
    let before = m;
    assert!(!m.configure(640, 0));
    assert_eq!(m, before);
}

#[test]
fn resize_rejects_degenerate_sizes() {
    let mut v = viewer();
    assert!(v.resize(800, 600));
    let before = v;
    assert!(!v.resize(0, 600));
    assert_eq!(v, before);
    assert!(!v.resize(800, 0));
    assert_eq!(v, before);
}

#[test]
fn resize_rebuilds_every_resource() {
    let mut v = viewer();
    assert!(v.resize(800, 600));
    let old = v.canvas;
    assert!(v.resize(1024, 768));
    let c = v.canvas;
    // both textures carry the new dimensions
    assert_eq!((c.texture_a.width, c.texture_a.height), (1024, 768));
    assert_eq!((c.texture_b.width, c.texture_b.height), (1024, 768));
    // all four bind groups reference the rebuilt views
    assert_eq!(c.compute_into_a.target_view, c.view_a.id);
    assert_eq!(c.compute_into_b.target_view, c.view_b.id);
    assert_eq!(c.render_from_a.sampled_view, c.view_a.id);
    assert_eq!(c.render_from_b.sampled_view, c.view_b.id);
    // no stale binding survives
    assert_ne!(c.view_a.id, old.view_a.id);
    assert_ne!(c.view_a.id, old.view_b.id);
    assert_ne!(c.view_b.id, old.view_a.id);
    assert_ne!(c.view_b.id, old.view_b.id);
    assert_ne!(c.texture_a.id, old.texture_a.id);
    assert_ne!(c.texture_b.id, old.texture_b.id);
    // the uniform buffer and sampler persist
    assert_eq!(c.params_buffer, old.params_buffer);
    assert_eq!(c.sampler, old.sampler);
}

#[test]
fn nothing_is_rendered_before_first_configure() {
    let v = viewer();
    assert!(!v.begin_frame());
}

#[test]
fn dirty_gating_across_ticks() {
    let mut v = viewer();
    assert!(v.resize(800, 600));
    assert!(v.begin_frame());
    assert!(v.viewport.dirty);
    let plan1 = v.plan_frame();
    assert!(plan1.compute.is_some());
    assert!(!v.viewport.dirty);
    v.finish_frame();
    // second tick with no input in between: no recompute
    let plan2 = v.plan_frame();
    assert!(plan2.compute.is_none());
}

#[test]
fn compute_pass_carries_current_parameters() {
    let mut v = viewer();
    assert!(v.resize(800, 600));
    assert!(v.viewport.zoom_by(Frac { num: 3, den: 2 }));
    let plan = v.plan_frame();
    let c = plan.compute.unwrap();
    assert_eq!(c.params.center_x, Frac { num: -1, den: 2 });
    assert_eq!(c.params.center_y, Frac { num: 0, den: 1 });
    assert_eq!(c.params.zoom, Frac { num: 3, den: 2 });
    assert_eq!(c.params.max_iterations, 100);
    assert_eq!(c.workgroups_x, 100);
    assert_eq!(c.workgroups_y, 75);
    assert_eq!(c.binding, v.canvas.compute_into_a);
    assert_eq!(plan.render.binding, v.canvas.render_from_a);
    assert_eq!(plan.render.vertex_count, 6);
}

#[test]
fn workgroups_cover_the_surface() {
    assert_eq!(workgroup_count(0), 0);
    assert_eq!(workgroup_count(1), 1);
    assert_eq!(workgroup_count(8), 1);
    assert_eq!(workgroup_count(9), 2);
    assert_eq!(workgroup_count(800), 100);
    assert_eq!(workgroup_count(801), 101);
}

#[test]
fn acquire_errors_are_classified() {
    assert_eq!(
        classify_acquire_error(AcquireError::Lost),
        AcquireDisposition::RecoverWithResize
    );
    assert_eq!(
        classify_acquire_error(AcquireError::Outdated),
        AcquireDisposition::RecoverWithResize
    );
    assert_eq!(
        classify_acquire_error(AcquireError::OutOfMemory),
        AcquireDisposition::Fatal
    );
    assert_eq!(
        classify_acquire_error(AcquireError::Timeout),
        AcquireDisposition::Fatal
    );
    assert_eq!(
        classify_acquire_error(AcquireError::Other),
        AcquireDisposition::Fatal
    );
}

#[test]
fn first_srgb_format_is_chosen() {
    let formats = vec![
        SurfaceFormat { code: 10, srgb: false },
        SurfaceFormat { code: 11, srgb: true },
        SurfaceFormat { code: 12, srgb: true },
    ];
    assert_eq!(choose_format(&formats), Some(SurfaceFormat { code: 11, srgb: true }));
}

#[test]
fn first_format_is_chosen_when_none_is_srgb() {
    let formats = vec![
        SurfaceFormat { code: 10, srgb: false },
        SurfaceFormat { code: 11, srgb: false },
    ];
    assert_eq!(choose_format(&formats), Some(SurfaceFormat { code: 10, srgb: false }));
}

#[test]
fn no_format_offered_means_none() {
    let formats: Vec<SurfaceFormat> = vec![];
    assert_eq!(choose_format(&formats), None);
}

#[test]
fn resize_marks_view_dirty() {
    let mut v = viewer();
    assert!(v.resize(800, 600));
    let _ = v.plan_frame();
    assert!(!v.viewport.dirty);
    assert!(v.resize(640, 480));
    assert!(v.viewport.dirty);
}

#[test]
fn finish_frame_updates_previous_cursor() {
    let mut v = viewer();
    v.viewport.set_cursor(Frac { num: 1, den: 4 }, Frac { num: 1, den: 2 });
    v.viewport.set_cursor(Frac { num: 1, den: 3 }, Frac { num: 1, den: 5 });
    v.finish_frame();
    assert_eq!(v.viewport.prev_cursor_x, Frac { num: 1, den: 3 });
    assert_eq!(v.viewport.prev_cursor_y, Frac { num: 1, den: 5 });
}
