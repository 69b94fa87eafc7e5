//! The navigation state machine and the exact zoom arithmetic.

use mandelbrot::binary64::{double_bits, halve_bits};
use mandelbrot::nav::{Controller, NavAction, NavEvent};
use mandelbrot::params::Params;

/// The recenter target the embedder hands to a left click: the current
/// center moved by the pointer's offset from the surface center, in
/// binary64 arithmetic, exactly as the event loop computes it.
fn recenter_target(c: &Controller) -> (u64, u64) {
    let p = &c.params;
    let mouse_x = f64::from_bits(c.mouse_x_bits);
    let mouse_y = f64::from_bits(c.mouse_y_bits);
    let zoom = f64::from_bits(p.zoom_bits);
    let x = f64::from_bits(p.middle_x_bits)
        + ((mouse_x - p.width as f64 / 2.) / p.width as f64 * 3.) * zoom;
    let y = f64::from_bits(p.middle_y_bits)
        + ((mouse_y - p.height as f64 / 2.) / p.height as f64 * 2.) * zoom;
    (x.to_bits(), y.to_bits())
}

#[test]
fn halving_and_doubling_match_the_hardware() {
    let samples: [f64; 14] = [
        0.0,
        -0.0,
        1.0,
        -1.0,
        0.75,
        2.0,
        1.5e-300,
        f64::MIN_POSITIVE,       // smallest normal
        f64::MIN_POSITIVE / 2.0, // an even subnormal
        5e-324,                  // the odd subnormal at the very bottom
        3.0 * 5e-324,
        f64::MAX,
        f64::MAX / 2.0,
        -f64::MAX,
    ];
    for v in samples {
        let b = v.to_bits();
        assert_eq!(
            halve_bits(b),
            (v / 2.0).to_bits(),
            "halving {v:e} disagrees with the hardware"
        );
        assert_eq!(
            double_bits(b),
            (v * 2.0).to_bits(),
            "doubling {v:e} disagrees with the hardware"
        );
    }
}

#[test]
fn doubling_the_top_exponent_overflows_to_infinity() {
    assert_eq!(double_bits(f64::MAX.to_bits()), f64::INFINITY.to_bits());
    assert_eq!(double_bits((-f64::MAX).to_bits()), f64::NEG_INFINITY.to_bits());
}

#[test]
fn zoom_is_self_inverse_under_the_click_protocol() {
    for zoom in [1.0f64, 0.75, 2.0, 1.5e-300, f64::MIN_POSITIVE] {
        let mut c = Controller::new(800, 600);
        c.params.zoom_bits = zoom.to_bits();
        let before = c.params.zoom_bits;
        let (tx, ty) = recenter_target(&c);
        c.handle(NavEvent::LeftClick { middle_x_bits: tx, middle_y_bits: ty });
        c.handle(NavEvent::RightClick);
        assert_eq!(c.params.zoom_bits, before, "zoom {zoom:e} not restored");
    }
}

#[test]
fn the_bottom_odd_subnormal_is_the_one_exception() {
    // Halving the smallest subnormal rounds to zero, and doubling zero
    // stays zero: the round trip cannot restore it.  The hardware
    // agrees, so this is the floating-point truth, not a library
    // choice.
    let tiny = 5e-324f64;
    assert_eq!(((tiny / 2.0) * 2.0).to_bits(), 0.0f64.to_bits());
    assert_eq!(double_bits(halve_bits(tiny.to_bits())), 0.0f64.to_bits());
}

#[test]
fn center_click_keeps_the_middle_and_halves_the_zoom() {
    let mut c = Controller::new(800, 600);
    c.handle(NavEvent::PointerMoved {
        x_bits: 400.0f64.to_bits(),
        y_bits: 300.0f64.to_bits(),
    });
    let (tx, ty) = recenter_target(&c);
    // The recentring delta is zero by construction at the geometric
    // center.
    assert_eq!(tx, c.params.middle_x_bits);
    assert_eq!(ty, c.params.middle_y_bits);
    let before = c.params;
    c.handle(NavEvent::LeftClick { middle_x_bits: tx, middle_y_bits: ty });
    assert_eq!(c.params.middle_x_bits, before.middle_x_bits);
    assert_eq!(c.params.middle_y_bits, before.middle_y_bits);
    assert_eq!(f64::from_bits(c.params.zoom_bits), 0.5);
}

#[test]
fn off_center_click_moves_the_middle() {
    let mut c = Controller::new(800, 600);
    c.handle(NavEvent::PointerMoved {
        x_bits: 600.0f64.to_bits(),
        y_bits: 300.0f64.to_bits(),
    });
    let (tx, ty) = recenter_target(&c);
    c.handle(NavEvent::LeftClick { middle_x_bits: tx, middle_y_bits: ty });
    // (600 - 400) / 800 * 3 * 1.0 = 0.75, on top of the -0.5 start.
    assert_eq!(f64::from_bits(c.params.middle_x_bits), 0.25);
    assert_eq!(f64::from_bits(c.params.middle_y_bits), 0.0);
    assert_eq!(f64::from_bits(c.params.zoom_bits), 0.5);
}

#[test]
fn degenerate_resize_is_ignored_bit_for_bit() {
    let mut c = Controller::new(800, 600);
    let before = c.params;
    let before_bytes = c.params.encode();
    let a1 = c.handle(NavEvent::Resized { width: 0, height: 1080 });
    let a2 = c.handle(NavEvent::Resized { width: 1920, height: 0 });
    let a3 = c.handle(NavEvent::Resized { width: 0, height: 0 });
    assert_eq!(a1, NavAction::Carry);
    assert_eq!(a2, NavAction::Carry);
    assert_eq!(a3, NavAction::Carry);
    assert_eq!(c.params, before);
    assert_eq!(c.params.encode(), before_bytes);
}

#[test]
fn proper_resize_reconfigures_the_surface() {
    let mut c = Controller::new(800, 600);
    let act = c.handle(NavEvent::Resized { width: 1920, height: 1080 });
    assert_eq!(act, NavAction::Reconfigure);
    assert_eq!(c.params.width, 1920);
    assert_eq!(c.params.height, 1080);
}

#[test]
fn close_escape_and_idle_steer_the_loop() {
    let mut c = Controller::new(800, 600);
    assert_eq!(c.handle(NavEvent::Idle), NavAction::Redraw);
    assert_eq!(c.handle(NavEvent::CloseRequested), NavAction::Exit);
    assert_eq!(c.handle(NavEvent::EscapePressed), NavAction::Exit);
}

#[test]
fn pointer_moves_only_refresh_the_cache() {
    let mut c = Controller::new(800, 600);
    let before = c.params;
    let act = c.handle(NavEvent::PointerMoved {
        x_bits: 123.5f64.to_bits(),
        y_bits: 456.25f64.to_bits(),
    });
    assert_eq!(act, NavAction::Carry);
    assert_eq!(c.params, before);
    assert_eq!(f64::from_bits(c.mouse_x_bits), 123.5);
    assert_eq!(f64::from_bits(c.mouse_y_bits), 456.25);
}

#[test]
fn arrows_step_the_iteration_bound_by_hundreds() {
    let mut c = Controller::new(800, 600);
    c.handle(NavEvent::UpArrow);
    assert_eq!(c.params.iterations, 200);
    c.handle(NavEvent::DownArrow);
    assert_eq!(c.params.iterations, 100);
}

#[test]
fn the_iteration_bound_saturates_at_the_top() {
    let mut c = Controller::new(800, 600);
    c.params.iterations = u32::MAX - 50;
    c.handle(NavEvent::UpArrow);
    assert_eq!(c.params.iterations, u32::MAX);
}

#[test]
fn lowering_from_the_default_reaches_and_keeps_the_floor() {
    // The end-to-end scenario: defaults, then Down-arrow twice.  The
    // decrement clamps at zero instead of wrapping; the second press
    // exercises exactly that policy.
    let mut c = Controller::new(800, 600);
    assert_eq!(c.params, Params::new(800, 600, 100));
    assert_eq!(f64::from_bits(c.params.zoom_bits), 1.0);
    assert_eq!(f64::from_bits(c.params.middle_x_bits), -0.5);
    assert_eq!(f64::from_bits(c.params.middle_y_bits), 0.0);
    c.handle(NavEvent::DownArrow);
    assert_eq!(c.params.iterations, 0);
    c.handle(NavEvent::DownArrow);
    assert_eq!(c.params.iterations, 0);
}
