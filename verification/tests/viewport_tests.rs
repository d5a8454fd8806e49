use mandelbrot_viewer::frac::Frac;
use mandelbrot_viewer::viewport::ViewportState;

fn defaults() -> ViewportState {
    ViewportState::default()
}

#[test]
fn default_view() {
    let v = defaults();
    assert_eq!(v.center_x, Frac { num: -1, den: 2 });
    assert_eq!(v.center_y, Frac { num: 0, den: 1 });
    assert_eq!(v.zoom, Frac { num: 1, den: 1 });
    assert_eq!(v.max_iterations, 100);
    assert!(!v.dragging);
    assert!(v.dirty);
}

#[test]
fn zoom_round_trip_restores_zoom() {
    let mut v = defaults();
    assert!(v.zoom_by(Frac { num: 6, den: 5 }));
    assert!(v.zoom_by(Frac { num: 5, den: 6 }));
    assert!(v.zoom.eq_value(&Frac { num: 1, den: 1 }));
    assert_eq!(v.zoom, Frac { num: 1, den: 1 });
}

#[test]
fn zoom_is_multiplicative() {
    let mut v = defaults();
    assert!(v.zoom_by(Frac { num: 6, den: 5 }));
    assert_eq!(v.zoom, Frac { num: 6, den: 5 });
    assert!(v.zoom_by(Frac { num: 6, den: 5 }));
    assert_eq!(v.zoom, Frac { num: 36, den: 25 });
}

#[test]
fn zoom_sets_dirty() {
    let mut v = defaults();
    v.dirty = false;
    assert!(v.zoom_by(Frac { num: 3, den: 2 }));
    assert!(v.dirty);
}

#[test]
fn iteration_floor_holds_for_sequences() {
    let mut v = defaults();
    for _ in 0..6 {
        v.adjust_iterations(-50);
        assert!(v.max_iterations >= 10);
    }
    assert_eq!(v.max_iterations, 10);
}

#[test]
fn iterations_step_up_and_down() {
    let mut v = defaults();
    v.adjust_iterations(50);
    assert_eq!(v.max_iterations, 150);
    v.adjust_iterations(-50);
    assert_eq!(v.max_iterations, 100);
}

#[test]
fn iterations_saturate_at_machine_limit() {
    let mut v = defaults();
    v.max_iterations = u32::MAX;
    v.adjust_iterations(50);
    assert_eq!(v.max_iterations, u32::MAX);
}

#[test]
fn pan_without_dragging_keeps_center() {
    let mut v = defaults();
    assert!(!v.dragging);
    let applied = v.pan(
        Frac { num: 1, den: 10 },
        Frac { num: 1, den: 10 },
        Frac { num: 2, den: 1 },
    );
    assert!(!applied);
    assert_eq!(v.center_x, Frac { num: -1, den: 2 });
    assert_eq!(v.center_y, Frac { num: 0, den: 1 });
}

#[test]
fn pan_while_dragging_moves_center_exactly() {
    let mut v = defaults();
    v.begin_drag();
    v.dirty = false;
    // delta_plane_x = (1/10) * (2/1) * (2/zoom) = 4/10; center_x = -1/2 - 2/5 = -9/10
    // delta_plane_y = (1/20) * (2/zoom) = 1/10; center_y = 0 - 1/10 = -1/10
    let applied = v.pan(
        Frac { num: 1, den: 10 },
        Frac { num: 1, den: 20 },
        Frac { num: 2, den: 1 },
    );
    assert!(applied);
    assert_eq!(v.center_x, Frac { num: -9, den: 10 });
    assert_eq!(v.center_y, Frac { num: -1, den: 10 });
    assert!(v.dirty);
}

#[test]
fn reset_restores_default_view() {
    let mut v = defaults();
    v.begin_drag();
    assert!(v.pan(
        Frac { num: 1, den: 10 },
        Frac { num: 1, den: 10 },
        Frac { num: 1, den: 1 },
    ));
    assert!(v.zoom_by(Frac { num: 6, den: 5 }));
    v.adjust_iterations(50);
    v.dirty = false;
    v.reset();
    assert_eq!(v.center_x, Frac { num: -1, den: 2 });
    assert_eq!(v.center_y, Frac { num: 0, den: 1 });
    assert_eq!(v.zoom, Frac { num: 1, den: 1 });
    assert!(v.dirty);
    // the iteration cap and drag state are kept
    assert_eq!(v.max_iterations, 150);
    assert!(v.dragging);
}

#[test]
fn set_cursor_tracks_previous_position() {
    let mut v = defaults();
    v.set_cursor(Frac { num: 1, den: 4 }, Frac { num: 1, den: 2 });
    assert_eq!(v.cursor_x, Frac { num: 1, den: 4 });
    assert_eq!(v.cursor_y, Frac { num: 1, den: 2 });
    assert_eq!(v.prev_cursor_x, Frac { num: 0, den: 1 });
    assert_eq!(v.prev_cursor_y, Frac { num: 0, den: 1 });
    v.set_cursor(Frac { num: 1, den: 3 }, Frac { num: 2, den: 3 });
    assert_eq!(v.prev_cursor_x, Frac { num: 1, den: 4 });
    assert_eq!(v.prev_cursor_y, Frac { num: 1, den: 2 });
}

#[test]
fn drag_toggles_without_marking_dirty() {
    let mut v = defaults();
    v.dirty = false;
    v.begin_drag();
    assert!(v.dragging);
    assert!(!v.dirty);
    v.end_drag();
    assert!(!v.dragging);
    assert!(!v.dirty);
}

#[test]
fn end_to_end_zoom_scenario() {
    let mut v = defaults();
    assert_eq!(v.zoom, Frac { num: 1, den: 1 });
    for _ in 0..3 {
        assert!(v.zoom_by(Frac { num: 6, den: 5 }));
    }
    // 1.2 cubed is exactly 1.728
    assert!(v.zoom.eq_value(&Frac::new(1728, 1000)));
    assert_eq!(v.zoom, Frac { num: 216, den: 125 });
    v.reset();
    assert_eq!(v.zoom, Frac { num: 1, den: 1 });
    assert_eq!(v.center_x, Frac { num: -1, den: 2 });
    assert_eq!(v.center_y, Frac { num: 0, den: 1 });
}
