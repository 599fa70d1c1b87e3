use wm_platform::error::Error;
use wm_platform::geometry::Rect;
use wm_platform::native_window::{
    cloaked_from, frame_from_extended, fullscreen_after_maximized, fullscreen_from_frame,
    manageability_step, visibility_after_window_flag, visibility_from_cloak, ManageabilityAnswer,
    ManageabilityStage, ManageabilityStep, WS_CAPTION, WS_CHILD, WS_EX_NOACTIVATE,
};
use wm_platform::shell::check_command_present;
use wm_platform::window_events::{next_hook_range, record_hook};

fn done(step: ManageabilityStep) -> Option<Result<bool, Error>> {
    match step {
        ManageabilityStep::Done(r) => Some(r),
        ManageabilityStep::Ask(_) => None,
    }
}

#[test]
fn hidden_window_is_decided_at_once() {
    let step = manageability_step(ManageabilityStage::Visibility, ManageabilityAnswer::Visibility(Ok(false)));
    assert!(matches!(done(step), Some(Ok(false))));
    let step = manageability_step(
        ManageabilityStage::Visibility,
        ManageabilityAnswer::Visibility(Err(Error::WindowNotFound)),
    );
    assert!(matches!(done(step), Some(Err(Error::WindowNotFound))));
    let step = manageability_step(ManageabilityStage::Visibility, ManageabilityAnswer::Visibility(Ok(true)));
    assert!(matches!(step, ManageabilityStep::Ask(ManageabilityStage::ProcessName)));
}

#[test]
fn manageability_walks_the_questions_in_order() {
    let step = manageability_step(ManageabilityStage::ProcessName, ManageabilityAnswer::ProcessName(Ok("code".into())));
    let stage = match step {
        ManageabilityStep::Ask(s @ ManageabilityStage::Title { .. }) => s,
        _ => panic!("expected the title question"),
    };
    let step = manageability_step(stage, ManageabilityAnswer::Title(Ok("main.rs".into())));
    let stage = match step {
        ManageabilityStep::Ask(s @ ManageabilityStage::ClassName { .. }) => s,
        _ => panic!("expected the class-name question"),
    };
    let step = manageability_step(stage, ManageabilityAnswer::ClassName(Ok("Chrome".into())));
    assert!(matches!(step, ManageabilityStep::Ask(ManageabilityStage::ChildStyle)));
    let step = manageability_step(ManageabilityStage::ChildStyle, ManageabilityAnswer::Style(WS_CHILD));
    assert!(matches!(done(step), Some(Ok(false))));
    let step = manageability_step(ManageabilityStage::ExStyle, ManageabilityAnswer::ExStyle(WS_EX_NOACTIVATE));
    assert!(matches!(done(step), Some(Ok(false))));
    let step = manageability_step(ManageabilityStage::ExStyle, ManageabilityAnswer::ExStyle(0));
    assert!(matches!(step, ManageabilityStep::Ask(ManageabilityStage::Frame)));
    let step = manageability_step(ManageabilityStage::Frame, ManageabilityAnswer::Frame(Err(Error::WindowNotFound)));
    assert!(matches!(done(step), Some(Err(Error::WindowNotFound))));
    let step = manageability_step(ManageabilityStage::Owner, ManageabilityAnswer::Owner(0));
    assert!(matches!(done(step), Some(Ok(true))));
    let step = manageability_step(ManageabilityStage::Owner, ManageabilityAnswer::Owner(9));
    assert!(matches!(step, ManageabilityStep::Ask(ManageabilityStage::CaptionStyle)));
    let step = manageability_step(ManageabilityStage::CaptionStyle, ManageabilityAnswer::Style(0));
    assert!(matches!(done(step), Some(Ok(false))));
    let step = manageability_step(ManageabilityStage::CaptionStyle, ManageabilityAnswer::Style(WS_CAPTION));
    assert!(matches!(done(step), Some(Ok(true))));
}

#[test]
fn failed_process_name_ends_the_check() {
    let step = manageability_step(
        ManageabilityStage::ProcessName,
        ManageabilityAnswer::ProcessName(Err(Error::Platform("denied".into()))),
    );
    assert!(matches!(done(step), Some(Err(Error::Platform(_)))));
}

#[test]
fn flow_launcher_is_decided_after_class_name() {
    let stage = ManageabilityStage::ClassName { process_name: "Flow.Launcher".into(), title: "Flow.Launcher".into() };
    let step = manageability_step(stage, ManageabilityAnswer::ClassName(Ok("x".into())));
    assert!(matches!(done(step), Some(Ok(true))));
}

#[test]
fn fullscreen_stages() {
    assert!(matches!(fullscreen_after_maximized(Ok(true)), Some(Ok(false))));
    assert!(matches!(fullscreen_after_maximized(Err(Error::WindowNotFound)), Some(Err(Error::WindowNotFound))));
    assert!(fullscreen_after_maximized(Ok(false)).is_none());
    let monitor = Rect::from_ltrb(0, 0, 100, 100);
    assert!(fullscreen_from_frame(&monitor, Ok(Rect::from_ltrb(1, 1, 99, 99))).unwrap());
    assert!(!fullscreen_from_frame(&monitor, Ok(Rect::from_ltrb(2, 1, 99, 99))).unwrap());
    assert!(fullscreen_from_frame(&monitor, Err(Error::WindowNotFound)).is_err());
}

#[test]
fn visibility_and_frame_stages() {
    assert!(matches!(visibility_after_window_flag(false), Some(Ok(false))));
    assert!(visibility_after_window_flag(true).is_none());
    assert!(visibility_from_cloak(Ok(0)).unwrap());
    assert!(!visibility_from_cloak(Ok(1)).unwrap());
    assert!(visibility_from_cloak(Err(Error::WindowNotFound)).is_err());
    assert!(cloaked_from(Ok(2)).unwrap());
    assert!(!cloaked_from(Ok(0)).unwrap());
    assert!(cloaked_from(Err(Error::WindowNotFound)).is_err());
    let r = Rect::from_ltrb(1, 2, 3, 4);
    assert_eq!(frame_from_extended(Ok(r)), Some(r));
    assert_eq!(frame_from_extended(Err(Error::WindowNotFound)), None);
}

#[test]
fn hook_setup_steps() {
    assert_eq!(next_hook_range(0), Some((0x800B, 0x800B)));
    assert_eq!(next_hook_range(1), Some((0x8001, 0x8003)));
    assert_eq!(next_hook_range(7), Some((0x8017, 0x8018)));
    assert_eq!(next_hook_range(8), None);
    assert_eq!(record_hook(vec![1, 2], Ok(3)).unwrap(), vec![1, 2, 3]);
    assert!(matches!(record_hook(vec![1], Err(Error::WindowNotFound)), Err(Error::WindowNotFound)));
}

#[test]
fn command_presence() {
    match check_command_present(" \t ") {
        Err(Error::Platform(m)) => assert_eq!(m, "No command provided"),
        _ => panic!("expected an error"),
    }
    assert!(check_command_present(" ls ").is_ok());
}
