use wm_platform::error::Error;
use wm_platform::geometry::{Color, Delta, LengthValue, OpacityValue, Rect};
use wm_platform::native_window::{
    added_style, all_windows, border_color_value, class_name_from_buffer, cloak_flag, corner_preference,
    frame_changed_request, frame_or_shadow, has_style, process_name_from_image_path, reposition_request,
    resize_request, set_frame_request, title_bar_style, title_from_text, visible_and_uncloaked,
    visible_windows, z_order_request, CornerStyle, HideMethod, ManageabilityQuery, NativeWindowInner,
    WindowAction, WindowId, ZOrder, DWMWA_COLOR_NONE, FRAME_CHANGED_FLAGS, HWND_NOTOPMOST, REPOSITION_FLAGS,
    RESIZE_FLAGS, SET_FRAME_FLAGS, WS_CAPTION, WS_CHILD, WS_DLGFRAME, WS_EX_LAYERED, WS_EX_TOOLWINDOW,
    WS_THICKFRAME, Z_ORDER_FLAGS,
};
use wm_platform::native_window::adjusted_opacity;
use wm_platform::text::{decode_prefix, first_piece, last_piece};

fn utf16(s: &str) -> Vec<u16> {
    s.encode_utf16().collect()
}

#[test]
fn window_identity() {
    let w = NativeWindowInner::new(0x1234);
    assert_eq!(w.handle, 0x1234);
    assert_eq!(w.id(), WindowId(0x1234));
    assert_eq!(w, NativeWindowInner::new(0x1234));
    assert_ne!(w, NativeWindowInner::new(0x1235));
}

#[test]
fn style_bits() {
    assert!(has_style(WS_CHILD | 1, WS_CHILD));
    assert!(!has_style(WS_CAPTION, WS_CHILD));
    let w = NativeWindowInner::new(1);
    assert!(w.is_resizable(WS_THICKFRAME));
    assert!(!w.is_resizable(WS_CAPTION & !WS_THICKFRAME));
}

#[test]
fn title_bar_style_toggles_dialog_frame() {
    let style: isize = 0x10CF_0000;
    assert_eq!(title_bar_style(style, true), None);
    assert_eq!(title_bar_style(style, false), Some(style & !WS_DLGFRAME));
    let hidden = style & !WS_DLGFRAME;
    assert_eq!(title_bar_style(hidden, true), Some(style));
    assert_eq!(title_bar_style(hidden, false), None);
}

#[test]
fn layered_style_is_added_once() {
    assert_eq!(added_style(0x100, WS_EX_LAYERED), Some(0x100 | 0x0008_0000));
    assert_eq!(added_style(0x0008_0100, WS_EX_LAYERED), None);
    assert_eq!(added_style(WS_EX_TOOLWINDOW, WS_EX_TOOLWINDOW | WS_EX_LAYERED), None);
}

#[test]
fn set_window_pos_requests() {
    assert_eq!(SET_FRAME_FLAGS, 0x4514);
    assert_eq!(RESIZE_FLAGS, 0x4516);
    assert_eq!(REPOSITION_FLAGS, 0x4515);
    assert_eq!(FRAME_CHANGED_FLAGS, 0x4737);
    assert_eq!(Z_ORDER_FLAGS, 0x4153);
    let r = set_frame_request(&Rect::from_ltrb(10, 20, 110, 220));
    assert_eq!((r.insert_after, r.x, r.y, r.cx, r.cy, r.flags), (0, 10, 20, 100, 200, 0x4514));
    let r = resize_request(640, 480);
    assert_eq!((r.x, r.y, r.cx, r.cy, r.flags), (0, 0, 640, 480, 0x4516));
    let r = reposition_request(-8, 4);
    assert_eq!((r.x, r.y, r.cx, r.cy, r.flags), (-8, 4, 0, 0, 0x4515));
    let r = frame_changed_request();
    assert_eq!((r.insert_after, r.flags), (HWND_NOTOPMOST, 0x4737));
}

#[test]
fn z_order_targets() {
    assert_eq!(z_order_request(&ZOrder::TopMost).insert_after, -1);
    assert_eq!(z_order_request(&ZOrder::Top).insert_after, 0);
    assert_eq!(z_order_request(&ZOrder::Normal).insert_after, -2);
    let r = z_order_request(&ZOrder::AfterWindow(WindowId(77)));
    assert_eq!((r.insert_after, r.flags), (77, 0x4153));
}

#[test]
fn corner_and_border_values() {
    assert_eq!(corner_preference(&CornerStyle::Default), 0);
    assert_eq!(corner_preference(&CornerStyle::Square), 1);
    assert_eq!(corner_preference(&CornerStyle::Rounded), 2);
    assert_eq!(corner_preference(&CornerStyle::SmallRounded), 3);
    assert_eq!(border_color_value(None), DWMWA_COLOR_NONE);
    assert_eq!(border_color_value(None), 0xFFFF_FFFE);
    assert_eq!(border_color_value(Some(&Color { r: 1, g: 2, b: 3, a: 0 })), 0x0003_0201);
}

#[test]
fn transparency_adjustment() {
    let up = Delta { inner: OpacityValue::from_alpha(50), is_negative: false };
    let down = Delta { inner: OpacityValue::from_alpha(50), is_negative: true };
    assert_eq!(adjusted_opacity(100, 0x2, &up).unwrap(), OpacityValue::from_alpha(150));
    assert_eq!(adjusted_opacity(230, 0x2, &up).unwrap(), OpacityValue::from_alpha(255));
    assert_eq!(adjusted_opacity(100, 0x2, &down).unwrap(), OpacityValue::from_alpha(50));
    assert_eq!(adjusted_opacity(20, 0, &down).unwrap(), OpacityValue::from_alpha(0));
    match adjusted_opacity(100, 0x3, &up) {
        Err(Error::Platform(m)) => {
            assert_eq!(m, "Window uses color key for its transparency and cannot be adjusted.")
        },
        _ => panic!("expected an error"),
    }
    assert_eq!(cloak_flag(true), 2);
    assert_eq!(cloak_flag(false), 0);
}

#[test]
fn fullscreen_detection() {
    let w = NativeWindowInner::new(5);
    let monitor = Rect::from_ltrb(0, 0, 1920, 1080);
    assert_eq!(w.is_fullscreen(&monitor, Ok(true), Ok(monitor)).unwrap(), false);
    assert!(w.is_fullscreen(&monitor, Ok(false), Ok(Rect::from_ltrb(1, 1, 1919, 1079))).unwrap());
    assert!(!w.is_fullscreen(&monitor, Ok(false), Ok(Rect::from_ltrb(2, 0, 1920, 1080))).unwrap());
    assert!(w.is_fullscreen(&monitor, Ok(false), Ok(Rect::from_ltrb(-8, -8, 1928, 1088))).unwrap());
    assert!(matches!(
        w.is_fullscreen(&monitor, Ok(false), Err(Error::WindowNotFound)),
        Err(Error::WindowNotFound)
    ));
    assert!(matches!(w.is_fullscreen(&monitor, Err(Error::WindowNotFound), Ok(monitor)), Err(Error::WindowNotFound)));
    let edge = Rect::from_ltrb(i32::MIN, i32::MIN, i32::MAX, i32::MAX);
    assert!(!w.is_fullscreen(&edge, Ok(false), Ok(monitor)).unwrap());
    assert!(w.is_fullscreen(&edge, Ok(false), Ok(edge)).unwrap());
}

#[test]
fn shadow_border_delta_per_edge() {
    let w = NativeWindowInner::new(5);
    let d = w
        .shadow_border_delta(Ok(Rect::from_ltrb(92, 100, 1008, 808)), Ok(Rect::from_ltrb(100, 101, 1000, 800)))
        .unwrap();
    assert_eq!(d.left, LengthValue::from_px(8));
    assert_eq!(d.top, LengthValue::from_px(1));
    assert_eq!(d.right, LengthValue::from_px(8));
    assert_eq!(d.bottom, LengthValue::from_px(8));
    assert!(matches!(
        w.shadow_border_delta(Err(Error::WindowNotFound), Ok(Rect::from_ltrb(0, 0, 1, 1))),
        Err(Error::WindowNotFound)
    ));
}

#[test]
fn visibility_actions() {
    let w = NativeWindowInner::new(5);
    assert_eq!(w.set_visible(true, &HideMethod::Hide), WindowAction::Show);
    assert_eq!(w.set_visible(false, &HideMethod::Hide), WindowAction::Hide);
    assert_eq!(w.set_visible(true, &HideMethod::Cloak), WindowAction::SetCloaked(false));
    assert_eq!(w.set_visible(false, &HideMethod::Cloak), WindowAction::SetCloaked(true));
    assert_eq!(
        w.cleanup(),
        vec![
            WindowAction::Show,
            WindowAction::SetTaskbarVisibility(true),
            WindowAction::SetBorderColor(None),
            WindowAction::SetTransparency(OpacityValue::from_alpha(255)),
        ]
    );
}

#[test]
fn visibility_and_frame_fallback() {
    assert_eq!(visible_and_uncloaked(false, Err(Error::WindowNotFound)).unwrap(), false);
    assert_eq!(visible_and_uncloaked(true, Ok(0)).unwrap(), true);
    assert_eq!(visible_and_uncloaked(true, Ok(2)).unwrap(), false);
    assert!(visible_and_uncloaked(true, Err(Error::WindowNotFound)).is_err());
    let a = Rect::from_ltrb(0, 0, 5, 5);
    let b = Rect::from_ltrb(1, 1, 4, 4);
    assert_eq!(frame_or_shadow(Ok(a), Ok(b)).unwrap(), a);
    assert_eq!(frame_or_shadow(Err(Error::WindowNotFound), Ok(b)).unwrap(), b);
}

fn query(name: &str, title: &str, style: isize, ex_style: isize, owner: isize) -> ManageabilityQuery {
    ManageabilityQuery {
        is_visible: Ok(true),
        process_name: Ok(name.to_string()),
        title: Ok(title.to_string()),
        class_name: Ok("Class".to_string()),
        style,
        ex_style,
        frame: Ok(Rect::from_ltrb(0, 0, 10, 10)),
        owner,
    }
}

#[test]
fn manageability_rules() {
    let w = NativeWindowInner::new(9);
    assert!(w.is_manageable(query("code", "main.rs", WS_CAPTION, 0, 0)).unwrap());
    assert!(!w.is_manageable(query("code", "menu", 0, 0, 42)).unwrap());
    assert!(w.is_manageable(query("code", "owned", WS_CAPTION, 0, 42)).unwrap());
    assert!(!w.is_manageable(query("code", "child", WS_CHILD | WS_CAPTION, 0, 0)).unwrap());
    assert!(!w.is_manageable(query("code", "tool", WS_CAPTION, WS_EX_TOOLWINDOW, 0)).unwrap());
    assert!(w.is_manageable(query("Flow.Launcher", "Flow.Launcher", WS_CHILD, WS_EX_TOOLWINDOW, 42)).unwrap());
    assert!(!w.is_manageable(query("Flow.Launcher", "Search", WS_CHILD, 0, 0)).unwrap());
    let mut hidden = query("code", "x", WS_CAPTION, 0, 0);
    hidden.is_visible = Ok(false);
    hidden.process_name = Err(Error::WindowNotFound);
    assert!(!w.is_manageable(hidden).unwrap());
    let mut no_title = query("code", "x", WS_CAPTION, 0, 0);
    no_title.title = Err(Error::WindowNotFound);
    assert!(matches!(w.is_manageable(no_title), Err(Error::WindowNotFound)));
    let mut no_frame = query("code", "x", WS_CAPTION, 0, 0);
    no_frame.frame = Err(Error::Platform("frame".to_string()));
    assert!(matches!(w.is_manageable(no_frame), Err(Error::Platform(_))));
    let mut no_frame_child = query("code", "x", WS_CHILD, 0, 0);
    no_frame_child.frame = Err(Error::Platform("frame".to_string()));
    assert!(!w.is_manageable(no_frame_child).unwrap());
}

#[test]
fn window_lists() {
    let ws = all_windows(Ok(vec![3, 1, 2])).unwrap();
    assert_eq!(ws, vec![NativeWindowInner::new(3), NativeWindowInner::new(1), NativeWindowInner::new(2)]);
    assert!(matches!(all_windows(Err(Error::WindowNotFound)), Err(Error::WindowNotFound)));
    let visible = visible_windows(vec![
        (NativeWindowInner::new(1), Ok(true)),
        (NativeWindowInner::new(2), Ok(false)),
        (NativeWindowInner::new(3), Err(Error::WindowNotFound)),
        (NativeWindowInner::new(4), Ok(true)),
    ]);
    assert_eq!(visible, vec![NativeWindowInner::new(1), NativeWindowInner::new(4)]);
}

#[test]
fn utf16_text_decoding() {
    let units = utf16("Wi\u{1F600}ndow");
    assert_eq!(decode_prefix(&units, units.len()), "Wi\u{1F600}ndow");
    assert_eq!(decode_prefix(&units, 2), "Wi");
    let broken = vec![0x61, 0xD800, 0x62, 0xDC00];
    assert_eq!(decode_prefix(&broken, 4), "a\u{FFFD}b\u{FFFD}");
}

#[test]
fn titles_and_class_names() {
    let mut buf = vec![0u16; 16];
    let t = utf16("Notes");
    buf[..t.len()].copy_from_slice(&t);
    assert_eq!(title_from_text(true, &buf, 5).unwrap(), "Notes");
    assert_eq!(title_from_text(true, &buf, 3).unwrap(), "Not");
    assert!(matches!(title_from_text(false, &buf, 5), Err(Error::WindowNotFound)));
    assert_eq!(class_name_from_buffer(&buf, 5, Error::WindowNotFound).unwrap(), "Notes");
    assert!(matches!(class_name_from_buffer(&buf, 0, Error::Thread("x".into())), Err(Error::Thread(_))));
}

#[test]
fn process_names_from_paths() {
    let p = utf16("C:\\Program Files\\Mozilla\\firefox.exe");
    assert_eq!(process_name_from_image_path(&p, p.len() as u32).unwrap(), "firefox");
    let p = utf16("C:\\Apps\\Flow.Launcher.exe");
    assert_eq!(process_name_from_image_path(&p, p.len() as u32).unwrap(), "Flow");
    let p = utf16("noext");
    assert_eq!(process_name_from_image_path(&p, p.len() as u32).unwrap(), "noext");
    let p = utf16("C:\\dir\\");
    assert_eq!(process_name_from_image_path(&p, p.len() as u32).unwrap(), "");
    assert_eq!(last_piece("a\\b\\c", '\\'), "c");
    assert_eq!(first_piece("x.y.z", '.'), "x");
}
