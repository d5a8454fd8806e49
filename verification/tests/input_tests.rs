use mandelbrot_viewer::frac::Frac;
use mandelbrot_viewer::input::{
    on_key, on_pointer_button, on_pointer_move, on_resize, on_scroll, route_event, InputEvent,
    Key, ScrollKind,
};
use mandelbrot_viewer::pipeline::Viewer;
use mandelbrot_viewer::surface::SurfaceFormat;

fn viewer() -> Viewer {
    Viewer::new(SurfaceFormat { code: 1, srgb: true }, 0, 200, 100)
}

fn configured_viewer() -> Viewer {
    let mut v = viewer();
    assert!(v.resize(200, 100));
    v
}

#[test]
fn close_request_exits() {
    let mut v = viewer();
    let fx = route_event(&mut v, InputEvent::CloseRequested);
    assert!(fx.exit);
    assert!(!fx.redraw);
}

#[test]
fn escape_exits_on_press_only() {
    let mut v = viewer();
    let fx = route_event(&mut v, InputEvent::Key { key: Key::Escape, pressed: true });
    assert!(fx.exit);
    let fx = route_event(&mut v, InputEvent::Key { key: Key::Escape, pressed: false });
    assert!(!fx.exit);
}

#[test]
fn key_release_does_nothing() {
    let mut v = configured_viewer();
    let before = v;
    let fx = route_event(&mut v, InputEvent::Key { key: Key::Equal, pressed: false });
    assert!(!fx.redraw && !fx.exit);
    assert_eq!(v, before);
}

#[test]
fn unmapped_key_does_nothing() {
    let mut v = configured_viewer();
    let before = v;
    let fx = route_event(&mut v, InputEvent::Key { key: Key::Other, pressed: true });
    assert!(!fx.redraw && !fx.exit);
    assert_eq!(v, before);
}

#[test]
fn reset_key_restores_view() {
    let mut v = configured_viewer();
    let fx = route_event(&mut v, InputEvent::Scroll { kind: ScrollKind::Line, up: true });
    assert!(fx.redraw);
    let fx = route_event(&mut v, InputEvent::Key { key: Key::KeyR, pressed: true });
    assert!(fx.redraw);
    assert_eq!(v.viewport.zoom, Frac { num: 1, den: 1 });
    assert_eq!(v.viewport.center_x, Frac { num: -1, den: 2 });
    assert_eq!(v.viewport.center_y, Frac { num: 0, den: 1 });
    assert!(v.viewport.dirty);
}

#[test]
fn plus_and_minus_keys_zoom() {
    let mut v = configured_viewer();
    let fx = route_event(&mut v, InputEvent::Key { key: Key::Equal, pressed: true });
    assert!(fx.redraw);
    assert_eq!(v.viewport.zoom, Frac { num: 3, den: 2 });
    let fx = route_event(&mut v, InputEvent::Key { key: Key::Minus, pressed: true });
    assert!(fx.redraw);
    assert_eq!(v.viewport.zoom, Frac { num: 1, den: 1 });
}

#[test]
fn numpad_keys_zoom_like_the_row_keys() {
    let mut v = configured_viewer();
    route_event(&mut v, InputEvent::Key { key: Key::NumpadAdd, pressed: true });
    assert_eq!(v.viewport.zoom, Frac { num: 3, den: 2 });
    route_event(&mut v, InputEvent::Key { key: Key::NumpadSubtract, pressed: true });
    assert_eq!(v.viewport.zoom, Frac { num: 1, den: 1 });
}

#[test]
fn arrow_keys_step_iterations() {
    let mut v = configured_viewer();
    let fx = route_event(&mut v, InputEvent::Key { key: Key::ArrowUp, pressed: true });
    assert!(fx.redraw);
    assert_eq!(v.viewport.max_iterations, 150);
    let fx = route_event(&mut v, InputEvent::Key { key: Key::ArrowDown, pressed: true });
    assert!(fx.redraw);
    assert_eq!(v.viewport.max_iterations, 100);
}

#[test]
fn iteration_floor_via_events() {
    let mut v = configured_viewer();
    for _ in 0..6 {
        route_event(&mut v, InputEvent::Key { key: Key::ArrowDown, pressed: true });
    }
    assert_eq!(v.viewport.max_iterations, 10);
}

#[test]
fn scroll_factors() {
    let mut v = configured_viewer();
    route_event(&mut v, InputEvent::Scroll { kind: ScrollKind::Line, up: true });
    assert_eq!(v.viewport.zoom, Frac { num: 6, den: 5 });
    route_event(&mut v, InputEvent::Scroll { kind: ScrollKind::Line, up: false });
    assert_eq!(v.viewport.zoom, Frac { num: 1, den: 1 });
    route_event(&mut v, InputEvent::Scroll { kind: ScrollKind::Pixel, up: true });
    assert_eq!(v.viewport.zoom, Frac { num: 11, den: 10 });
    route_event(&mut v, InputEvent::Scroll { kind: ScrollKind::Pixel, up: false });
    assert_eq!(v.viewport.zoom, Frac { num: 1, den: 1 });
}

#[test]
fn primary_button_holds_drag_state() {
    let mut v = configured_viewer();
    let fx = route_event(&mut v, InputEvent::PrimaryButton { pressed: true });
    assert!(!fx.redraw && !fx.exit);
    assert!(v.viewport.dragging);
    let fx = route_event(&mut v, InputEvent::PrimaryButton { pressed: false });
    assert!(!fx.redraw && !fx.exit);
    assert!(!v.viewport.dragging);
}

#[test]
fn cursor_move_without_drag_only_tracks() {
    let mut v = configured_viewer();
    let fx = route_event(
        &mut v,
        InputEvent::CursorMoved { x: Frac { num: 1, den: 4 }, y: Frac { num: 1, den: 2 } },
    );
    assert!(!fx.redraw);
    assert_eq!(v.viewport.cursor_x, Frac { num: 1, den: 4 });
    assert_eq!(v.viewport.cursor_y, Frac { num: 1, den: 2 });
    assert_eq!(v.viewport.prev_cursor_x, Frac { num: 0, den: 1 });
    assert_eq!(v.viewport.center_x, Frac { num: -1, den: 2 });
    assert_eq!(v.viewport.center_y, Frac { num: 0, den: 1 });
}

#[test]
fn drag_pans_the_view() {
    // surface 200 x 100: aspect ratio 2; zoom 1
    let mut v = configured_viewer();
    route_event(&mut v, InputEvent::PrimaryButton { pressed: true });
    let fx = route_event(
        &mut v,
        InputEvent::CursorMoved { x: Frac { num: 1, den: 10 }, y: Frac { num: 0, den: 1 } },
    );
    assert!(fx.redraw);
    // delta_x = 1/10, plane delta = (1/10) * 2 * 2 = 2/5; center_x = -1/2 - 2/5
    assert_eq!(v.viewport.center_x, Frac { num: -9, den: 10 });
    assert_eq!(v.viewport.center_y, Frac { num: 0, den: 1 });
    assert!(v.viewport.dirty);
}

#[test]
fn resize_event_reconfigures_and_redraws() {
    let mut v = viewer();
    let fx = route_event(&mut v, InputEvent::Resized { width: 320, height: 240 });
    assert!(fx.redraw && !fx.exit);
    assert!(v.surface.configured);
    assert_eq!(v.surface.config.width, 320);
    assert_eq!(v.surface.config.height, 240);
    assert_eq!(v.canvas.width, 320);
    assert_eq!(v.canvas.height, 240);
    assert!(v.viewport.dirty);
}

#[test]
fn named_entry_points_behave_like_the_router() {
    let mut v = viewer();
    let fx = on_resize(&mut v, 200, 100);
    assert!(fx.redraw);
    assert!(v.surface.configured);
    on_pointer_button(&mut v, true);
    assert!(v.viewport.dragging);
    let fx = on_pointer_move(&mut v, Frac { num: 1, den: 10 }, Frac { num: 0, den: 1 });
    assert!(fx.redraw);
    assert_eq!(v.viewport.center_x, Frac { num: -9, den: 10 });
    on_pointer_button(&mut v, false);
    on_scroll(&mut v, ScrollKind::Line, true);
    assert_eq!(v.viewport.zoom, Frac { num: 6, den: 5 });
    let fx = on_key(&mut v, Key::KeyR, true);
    assert!(fx.redraw);
    assert_eq!(v.viewport.zoom, Frac { num: 1, den: 1 });
}

#[test]
fn degenerate_resize_event_changes_nothing() {
    let mut v = configured_viewer();
    let before = v;
    let fx = route_event(&mut v, InputEvent::Resized { width: 0, height: 240 });
    assert!(fx.redraw);
    assert_eq!(v, before);
}
