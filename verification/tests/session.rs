use wallcove::daemon::{request_action, RequestAction};
use wallcove::engine::video::linux::session::{
    callback_wait_step, session_report, session_setup, session_step, CallbackWait, SessionAction,
    SessionEvent, SessionState,
};
use wallcove::protocol::Request;

#[test]
fn first_frame_is_preceded_by_ready_signal() {
    let s = SessionState::new();
    assert!(!s.signaled_ready && !s.shutting_down);
    let (s, a) = session_step(s, SessionEvent::FrameTimeout);
    assert_eq!(a, SessionAction::Skip);
    let (s, a) = session_step(s, SessionEvent::FrameReady);
    assert_eq!(a, SessionAction::SignalReadyThenRender);
    assert!(s.signaled_ready);
    let (s, a) = session_step(s, SessionEvent::FrameReady);
    assert_eq!(a, SessionAction::Render);
    let (s, a) = session_step(s, SessionEvent::Shutdown);
    assert_eq!(a, SessionAction::Stop);
    assert!(s.shutting_down && s.signaled_ready);
}

#[test]
fn stop_reasons() {
    let (s, a) = session_step(SessionState::new(), SessionEvent::CallbacksGivenUp);
    assert_eq!(a, SessionAction::Stop);
    assert!(s.shutting_down);
    let (s, a) = session_step(SessionState::new(), SessionEvent::DecoderGone);
    assert_eq!(a, SessionAction::Stop);
    assert!(!s.shutting_down);
}

#[test]
fn setup_checks_in_order() {
    match session_setup::<u8, u8>(None, None, None) {
        Err(m) => assert_eq!(m, "wl_compositor missing"),
        Ok(_) => panic!("expected failure"),
    }
    match session_setup::<u8, u8>(Some(1), None, Some(3)) {
        Err(m) => assert_eq!(
            m,
            "zwlr_layer_shell_v1 missing: compositor does not support layer-shell wallpapers"
        ),
        Ok(_) => panic!("expected failure"),
    }
    match session_setup::<u8, u8>(Some(1), Some(2), None) {
        Err(m) => assert_eq!(m, "no Wayland outputs found"),
        Ok(_) => panic!("expected failure"),
    }
    assert_eq!(session_setup::<u8, u8>(Some(1), Some(2), Some(7)).unwrap(), (1, 2, 7));
}

#[test]
fn session_failure_is_reported_on_ready() {
    assert_eq!(session_report(Ok(())), None);
    assert_eq!(session_report(Err("boom".into())), Some(Err("boom".to_string())));
}

#[test]
fn requests_map_to_actions() {
    match request_action(Request::HelloWorld) {
        RequestAction::Reply(t) => assert_eq!(t, "hello from wallcovedaemon"),
        _ => panic!("unexpected action"),
    }
    match request_action(Request::Shutdown) {
        RequestAction::Shutdown { reply } => assert_eq!(reply, "shutting down wallcovedaemon"),
        _ => panic!("unexpected action"),
    }
    match request_action(Request::SetVideoWallpaper { path: "/v.mp4".into() }) {
        RequestAction::SetVideoWallpaper(p) => assert_eq!(p, "/v.mp4"),
        _ => panic!("unexpected action"),
    }
    assert!(matches!(request_action(Request::Status), RequestAction::ReportStatus));
    assert!(matches!(request_action(Request::ClearWallpaper), RequestAction::ClearWallpaper));
    assert!(matches!(
        request_action(Request::GetActiveWallpaper),
        RequestAction::GetActiveWallpaper
    ));
}

#[test]
fn callback_wait_checks_in_order() {
    assert_eq!(callback_wait_step(false, true, true), CallbackWait::Proceed);
    assert_eq!(callback_wait_step(true, true, true), CallbackWait::GiveUpOnShutdown);
    assert_eq!(callback_wait_step(true, false, true), CallbackWait::GiveUpOnDeadline);
    assert_eq!(callback_wait_step(true, false, false), CallbackWait::Dispatch);
}
