use wm_platform::dispatcher::{Dispatcher, EventLoopInstaller, EventLoopSource, MouseListener};
use wm_platform::keyboard::{hook_key_event, Key, KeyCode, KeyEvent};
use wm_platform::native_window::{NativeWindowInner, WindowId};
use wm_platform::window_events::{is_window_event, window_event_for, window_event_ranges, WindowEvent};

#[test]
fn key_codes_round_trip() {
    assert_eq!(Key::A.to_key_code(), Some(KeyCode(0x41)));
    assert_eq!(Key::Z.to_key_code(), Some(KeyCode(0x5A)));
    assert_eq!(Key::D0.to_key_code(), Some(KeyCode(0x30)));
    assert_eq!(Key::F12.to_key_code(), Some(KeyCode(0x7B)));
    assert_eq!(Key::LWin.to_key_code(), Some(KeyCode(0x5B)));
    assert_eq!(Key::Win.to_key_code(), None);
    assert_eq!(Key::Shift.to_key_code(), None);
    assert_eq!(Key::from_key_code(KeyCode(0x41)), Some(Key::A));
    assert_eq!(Key::from_key_code(KeyCode(0xA1)), Some(Key::RShift));
    assert_eq!(Key::from_key_code(KeyCode(0xFF)), None);
    for code in 0u16..=0xFF {
        if let Some(k) = Key::from_key_code(KeyCode(code)) {
            assert_eq!(k.to_key_code(), Some(KeyCode(code)));
        }
    }
}

#[test]
fn key_down_checks() {
    assert_eq!(KeyEvent::key_codes_to_check(Key::Win), vec![0x5B, 0x5C]);
    assert_eq!(KeyEvent::key_codes_to_check(Key::Cmd), vec![0x5B, 0x5C]);
    assert_eq!(KeyEvent::key_codes_to_check(Key::Alt), vec![0xA4, 0xA5]);
    assert_eq!(KeyEvent::key_codes_to_check(Key::Ctrl), vec![0xA2, 0xA3]);
    assert_eq!(KeyEvent::key_codes_to_check(Key::Shift), vec![0xA0, 0xA1]);
    assert_eq!(KeyEvent::key_codes_to_check(Key::Q), vec![0x51]);
    let e = KeyEvent::new(Key::A, KeyCode(0x41), true);
    assert_eq!((e.key, e.key_code, e.is_keypress), (Key::A, KeyCode(0x41), true));
    assert!(e.is_key_down(&[0, -128i16]));
    assert!(e.is_key_down(&[0x80]));
    assert!(!e.is_key_down(&[0, 1, 0x7F]));
    assert!(!e.is_key_down(&[]));
}

#[test]
fn keyboard_hook_events() {
    assert_eq!(hook_key_event(1, 0x41, 0x100), None);
    assert_eq!(hook_key_event(-1, 0x41, 0x100), None);
    assert_eq!(hook_key_event(0, 0x41, 0x100), Some(KeyEvent::new(Key::A, KeyCode(0x41), true)));
    assert_eq!(hook_key_event(0, 0x41, 0x104), Some(KeyEvent::new(Key::A, KeyCode(0x41), true)));
    assert_eq!(hook_key_event(0, 0x41, 0x101), Some(KeyEvent::new(Key::A, KeyCode(0x41), false)));
    assert_eq!(hook_key_event(0, 0x1_0041, 0x100), Some(KeyEvent::new(Key::A, KeyCode(0x41), true)));
    assert_eq!(hook_key_event(0, 0xFF, 0x100), None);
}

#[test]
fn window_event_filtering() {
    assert!(is_window_event(0, 0, 5));
    assert!(!is_window_event(-4, 0, 5));
    assert!(!is_window_event(0, 1, 5));
    assert!(!is_window_event(0, 0, 0));
}

#[test]
fn window_event_mapping() {
    let w = NativeWindowInner::new(42);
    assert_eq!(window_event_for(0x8001, 42), Some(WindowEvent::Destroy(WindowId(42))));
    assert_eq!(window_event_for(0x0003, 42), Some(WindowEvent::Focus(w.clone())));
    assert_eq!(window_event_for(0x8003, 42), Some(WindowEvent::Hide(w.clone())));
    assert_eq!(window_event_for(0x8017, 42), Some(WindowEvent::Hide(w.clone())));
    assert_eq!(window_event_for(0x800B, 42), Some(WindowEvent::LocationChange(w.clone())));
    assert_eq!(window_event_for(0x0016, 42), Some(WindowEvent::Minimize(w.clone())));
    assert_eq!(window_event_for(0x0017, 42), Some(WindowEvent::MinimizeEnd(w.clone())));
    assert_eq!(window_event_for(0x000B, 42), Some(WindowEvent::MoveOrResizeEnd(w.clone())));
    assert_eq!(window_event_for(0x000A, 42), Some(WindowEvent::MoveOrResizeStart(w.clone())));
    assert_eq!(window_event_for(0x8002, 42), Some(WindowEvent::Show(w.clone())));
    assert_eq!(window_event_for(0x8018, 42), Some(WindowEvent::Show(w.clone())));
    assert_eq!(window_event_for(0x800C, 42), Some(WindowEvent::TitleChange(w.clone())));
    assert_eq!(window_event_for(0x8004, 42), None);
    assert_eq!(window_event_for(0x0001, 42), None);
}

#[test]
fn hooked_ranges_cover_handled_events() {
    let ranges = window_event_ranges();
    assert_eq!(ranges.len(), 8);
    assert_eq!(ranges[0], (0x800B, 0x800B));
    assert_eq!(ranges[7], (0x8017, 0x8018));
    for t in 0u32..0x9000 {
        if window_event_for(t, 1).is_some() {
            assert!(ranges.iter().any(|(lo, hi)| *lo <= t && t <= *hi), "{:x}", t);
        }
    }
}

#[test]
fn dispatchers_and_listeners() {
    let (_installer, dispatcher) = EventLoopInstaller::new().unwrap();
    assert_eq!(dispatcher.source(), None);
    assert!(!dispatcher.stopped().load(std::sync::atomic::Ordering::SeqCst));
    assert!(MouseListener::new(&dispatcher).is_ok());
    let source = EventLoopSource { message_window_handle: WindowId(9), thread_id: 3 };
    let d = Dispatcher::new(Some(source), std::sync::Arc::new(std::sync::atomic::AtomicBool::new(true)));
    assert_eq!(d.source(), Some(source));
    assert_eq!(d.clone().source(), Some(source));
}

#[test]
fn mouse_listener_shares_the_stop_flag() {
    let (_installer, dispatcher) = EventLoopInstaller::new().unwrap();
    assert_eq!(std::sync::Arc::strong_count(dispatcher.stopped()), 1);
    let listener = MouseListener::new(&dispatcher).unwrap();
    assert_eq!(std::sync::Arc::strong_count(dispatcher.stopped()), 2);
    drop(listener);
    assert_eq!(std::sync::Arc::strong_count(dispatcher.stopped()), 1);
}
