use prima::error::{classify, FailureClass, RenderError};
use prima::winmsg::{pump_decision, window_message_action, PumpStep, WindowAction,
    KEY_CODE_ESCAPE, WM_CLOSE, WM_DESTROY, WM_KEYDOWN, WM_QUIT};

#[test]
fn loop_failures_tear_down_gracefully() {
    assert_eq!(classify(RenderError::AcquireFailed), FailureClass::GracefulTeardown);
    assert_eq!(classify(RenderError::PresentFailed), FailureClass::GracefulTeardown);
}

#[test]
fn setup_failures_abort() {
    let fatal = [
        RenderError::UnsupportedPresentationFormat,
        RenderError::NoCompatibleQueueFamily,
        RenderError::NoSuitableMemoryType,
        RenderError::ShaderNotWordAligned,
        RenderError::ShaderEmpty,
        RenderError::ShaderBadMagic,
        RenderError::FrameCapacityExceeded,
    ];
    for e in fatal {
        assert_eq!(classify(e), FailureClass::FatalAbort);
    }
}

#[test]
fn escape_key_destroys_the_window() {
    assert_eq!(
        window_message_action(WM_KEYDOWN, KEY_CODE_ESCAPE),
        WindowAction::DestroyWindow,
    );
    assert_eq!(window_message_action(WM_KEYDOWN, 0x41), WindowAction::ForwardToSystem);
}

#[test]
fn close_without_escape_parameter_is_forwarded() {
    // The escape guard covers the close arm too; a plain close request is
    // handled by the system default.
    assert_eq!(window_message_action(WM_CLOSE, 0), WindowAction::ForwardToSystem);
    assert_eq!(window_message_action(WM_CLOSE, KEY_CODE_ESCAPE), WindowAction::DestroyWindow);
}

#[test]
fn destroy_posts_the_quit_request() {
    assert_eq!(window_message_action(WM_DESTROY, 0), WindowAction::PostQuit);
}

#[test]
fn other_messages_are_forwarded() {
    assert_eq!(window_message_action(0x0005, 0), WindowAction::ForwardToSystem);
}

#[test]
fn empty_pump_renders_a_frame() {
    assert_eq!(pump_decision(0, 0), PumpStep::RenderFrame);
}

#[test]
fn failed_pump_is_fatal() {
    assert_eq!(pump_decision(-1, 0), PumpStep::Fail);
}

#[test]
fn retrieved_messages_are_dispatched() {
    assert_eq!(pump_decision(1, WM_QUIT), PumpStep::Dispatch { quit: true });
    assert_eq!(pump_decision(1, WM_DESTROY), PumpStep::Dispatch { quit: false });
}
