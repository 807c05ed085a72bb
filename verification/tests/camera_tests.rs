use fractal_view::camera::Camera;
use fractal_view::camera::CONVERGE_EPS;
use fractal_view::camera::DEFAULT_ZOOM;
use fractal_view::camera::ZOOM_FLOOR;
use fractal_view::fixed::FP_SCALE;

fn world_under_anchor(c: &Camera) -> (i64, i64) {
    let wx = if c.anchor_x >= 0 {
        c.anchor_x * FP_SCALE / c.zoom
    } else {
        -(-c.anchor_x * FP_SCALE / c.zoom)
    };
    let wy = if c.anchor_y >= 0 {
        c.anchor_y * FP_SCALE / c.zoom
    } else {
        -(-c.anchor_y * FP_SCALE / c.zoom)
    };
    (wx - c.pos_x, wy - c.pos_y)
}

#[test]
fn new_camera_defaults() {
    let c = Camera::new();
    assert_eq!(c.zoom, DEFAULT_ZOOM);
    assert_eq!(c.zoom_dst, DEFAULT_ZOOM);
    assert_eq!(c.pos_x, 0);
    assert_eq!(c.pos_y, 0);
    assert_eq!(c.pos_dst_x, 0);
    assert_eq!(c.pos_dst_y, 0);
    assert!(!c.zooming);
    assert!(!c.dragging);
}

#[test]
fn zoom_in_scrolls_strictly_increase() {
    let mut c = Camera::new();
    c.cursor_moved(4_000_000, 3_000_000);
    let mut prev = c.zoom_dst;
    for _ in 0..50 {
        c.set_zoom_target(true, 800, 600);
        assert!(c.zoom_dst > prev);
        assert!(c.zoom_dst >= ZOOM_FLOOR);
        prev = c.zoom_dst;
    }
}

#[test]
fn zoom_out_scrolls_strictly_decrease_to_floor() {
    let mut c = Camera::new();
    c.cursor_moved(4_000_000, 3_000_000);
    let mut prev = c.zoom_dst;
    // 500 / 0.86444^k reaches the 0.01 floor after well under 100 steps.
    for _ in 0..100 {
        c.set_zoom_target(false, 800, 600);
        assert!(c.zoom_dst >= ZOOM_FLOOR);
        if prev > ZOOM_FLOOR {
            assert!(c.zoom_dst < prev);
        } else {
            assert_eq!(c.zoom_dst, ZOOM_FLOOR);
        }
        prev = c.zoom_dst;
    }
    assert_eq!(c.zoom_dst, ZOOM_FLOOR);
}

#[test]
fn cursor_anchor_world_coordinate_is_preserved() {
    let mut c = Camera::new();
    // An off-center scroll on an 800x600 surface: anchor away from zero.
    c.cursor_moved(6_000_000, 1_500_000);
    c.set_zoom_target(true, 800, 600);
    let before = world_under_anchor(&c);
    let mut ticks = 0;
    while c.zooming {
        c.tick();
        ticks += 1;
        assert!(ticks < 1000);
    }
    // Let the pan finish riding in after the zoom has settled.
    for _ in 0..200 {
        c.tick();
    }
    let after = world_under_anchor(&c);
    // Within 1e-3 world units, i.e. 10 fixed-point units.
    assert!((before.0 - after.0).abs() <= 10);
    assert!((before.1 - after.1).abs() <= 10);
}

#[test]
fn convergence_needs_boundedly_many_ticks() {
    let mut c = Camera::new();
    c.cursor_moved(4_000_000, 3_000_000);
    c.set_zoom_target(false, 800, 600);
    assert!((c.zoom_dst - c.zoom).abs() >= CONVERGE_EPS);
    let mut ticks = 0;
    while c.zooming {
        c.tick();
        ticks += 1;
        assert!(ticks <= 40);
    }
    assert!(ticks >= 1);
    assert!((c.zoom_dst - c.zoom).abs() < CONVERGE_EPS);
    // Settled for good: further ticks do not restart the animation.
    for _ in 0..10 {
        let converged_now = c.tick();
        assert!(!converged_now);
        assert!(!c.zooming);
    }
}

#[test]
fn scenario_center_zoom_out_does_not_pan() {
    let mut c = Camera::new();
    // Cursor at the exact center of an 800x600 surface.
    c.cursor_moved(400 * FP_SCALE, 300 * FP_SCALE);
    // A scroll with negative delta: zoom out by 0.86444.
    c.set_zoom_target(false, 800, 600);
    assert_eq!(c.zoom_dst, 4_322_200); // 500 * 0.86444 = 432.22
    assert_eq!(c.anchor_x, 0);
    assert_eq!(c.anchor_y, 0);
    while c.zooming {
        c.tick();
    }
    for _ in 0..100 {
        c.tick();
    }
    // Center-anchored zoom does not pan.
    assert_eq!(c.pos_x, 0);
    assert_eq!(c.pos_y, 0);
    assert_eq!(c.pos_dst_x, 0);
    assert_eq!(c.pos_dst_y, 0);
}

#[test]
fn scenario_drag_accumulates_screen_delta_over_zoom() {
    let mut c = Camera::new();
    c.cursor_moved(100 * FP_SCALE, 100 * FP_SCALE);
    c.begin_drag();
    assert!(c.dragging);
    c.cursor_moved(150 * FP_SCALE, 130 * FP_SCALE);
    // position_target += [50 / 500, 30 / 500] = [0.1, 0.06]
    assert_eq!(c.pos_dst_x, 1000);
    assert_eq!(c.pos_dst_y, 600);
    c.end_drag();
    assert!(!c.dragging);
    // Moves without dragging leave the pan target alone.
    c.cursor_moved(0, 0);
    assert_eq!(c.pos_dst_x, 1000);
    assert_eq!(c.pos_dst_y, 600);
}

#[test]
fn drag_in_two_steps_matches_one_step() {
    let mut a = Camera::new();
    a.cursor_moved(100 * FP_SCALE, 100 * FP_SCALE);
    a.begin_drag();
    a.cursor_moved(120 * FP_SCALE, 110 * FP_SCALE);
    a.cursor_moved(150 * FP_SCALE, 130 * FP_SCALE);
    assert_eq!(a.pos_dst_x, 1000);
    assert_eq!(a.pos_dst_y, 600);
}

#[test]
fn settled_reflects_gap() {
    let mut c = Camera::new();
    assert!(c.settled());
    c.cursor_moved(4_000_000, 3_000_000);
    c.set_zoom_target(true, 800, 600);
    assert!(!c.settled());
}
