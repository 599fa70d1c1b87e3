use wm_platform::error::Error;
use wm_platform::geometry::{Color, Delta, LengthUnit, LengthValue, OpacityValue, Rect, RectDelta};
use wm_platform::mock_window::{MockWindowId, NativeWindowMock, WindowState};

fn window() -> NativeWindowMock {
    NativeWindowMock::new(7, "Editor".to_string(), Rect::from_ltrb(10, 20, 110, 220), false, WindowState::Normal)
}

#[test]
fn rect_edges_and_size() {
    let r = Rect::from_ltrb(-5, 3, 15, 33);
    assert_eq!((r.left, r.top, r.right, r.bottom), (-5, 3, 15, 33));
    assert_eq!(r.x(), -5);
    assert_eq!(r.y(), 3);
    assert_eq!(r.width(), 20);
    assert_eq!(r.height(), 30);
}

#[test]
fn length_and_delta_constructors() {
    let l = LengthValue::from_px(-4);
    assert_eq!(l, LengthValue { amount: -4, unit: LengthUnit::Pixel });
    let d = RectDelta::new(l, LengthValue::from_px(1), LengthValue::from_px(2), LengthValue::from_px(3));
    assert_eq!(d.top.amount, 1);
    assert_eq!(d.bottom.amount, 3);
    assert_eq!(OpacityValue::from_alpha(128).to_alpha(), 128);
    let delta = Delta { inner: OpacityValue::from_alpha(5), is_negative: true };
    assert!(delta.is_negative);
}

#[test]
fn color_to_bgr_orders_channels() {
    let c = Color { r: 0x11, g: 0x22, b: 0x33, a: 0xff };
    assert_eq!(c.to_bgr(), 0x0033_2211);
    let white = Color { r: 255, g: 255, b: 255, a: 255 };
    assert_eq!(white.to_bgr(), 0x00ff_ffff);
}

#[test]
fn mock_reports_its_state() {
    let w = window();
    assert_eq!(w.id(), MockWindowId(7));
    assert_eq!(w.title().unwrap(), "Editor");
    assert_eq!(w.frame().unwrap(), Rect::from_ltrb(10, 20, 110, 220));
    assert_eq!(w.position().unwrap(), (10, 20));
    assert_eq!(w.size().unwrap(), (100, 200));
    assert!(w.is_visible().unwrap());
    assert!(!w.is_minimized().unwrap());
    assert!(!w.is_maximized().unwrap());
}

#[test]
fn mock_resize_keeps_position() {
    let mut w = window();
    w.resize(300, 50).unwrap();
    assert_eq!(w.size().unwrap(), (300, 50));
    assert_eq!(w.position().unwrap(), (10, 20));
    assert_eq!(w.frame().unwrap(), Rect::from_ltrb(10, 20, 310, 70));
}

#[test]
fn mock_reposition_moves_left_top_only() {
    let mut w = window();
    w.reposition(50, 60).unwrap();
    assert_eq!(w.position().unwrap(), (50, 60));
    assert_eq!(w.frame().unwrap(), Rect::from_ltrb(50, 60, 110, 220));
    assert_eq!(w.size().unwrap(), (60, 160));
}

#[test]
fn mock_set_frame_then_frame() {
    let mut w = window();
    let r = Rect::from_ltrb(0, 0, 1920, 1080);
    w.set_frame(&r).unwrap();
    assert_eq!(w.frame().unwrap(), r);
    assert_eq!(w.id(), MockWindowId(7));
}

#[test]
fn mock_minimize_and_maximize() {
    let mut w = window();
    w.minimize().unwrap();
    assert!(w.is_minimized().unwrap());
    assert!(!w.is_visible().unwrap());
    w.maximize().unwrap();
    assert!(w.is_maximized().unwrap());
    assert!(!w.is_minimized().unwrap());
    assert!(w.is_visible().unwrap());
    let mut hidden = NativeWindowMock::new(1, String::new(), Rect::from_ltrb(0, 0, 1, 1), true, WindowState::Normal);
    assert!(!hidden.is_visible().unwrap());
    hidden.maximize().unwrap();
    assert!(!hidden.is_visible().unwrap());
}

#[test]
fn error_variants_carry_text() {
    let e = Error::Windows { code: -5, message: "denied".to_string() };
    assert!(matches!(e, Error::Windows { code: -5, .. }));
    assert!(matches!(Error::Thread("t".to_string()), Error::Thread(_)));
}
