use prima::frame_loop::{step, FrameAction, FrameEvent, FrameState};

#[test]
fn one_frame_walks_the_happy_path() {
    let (s, a) = step(FrameState::Idle, FrameEvent::InputProcessed);
    assert_eq!((s, a), (FrameState::Acquiring, FrameAction::AcquireImage));

    let (s, a) = step(s, FrameEvent::ImageAcquired { index: 1 });
    assert_eq!((s, a), (FrameState::Recording { slot: 1 }, FrameAction::WriteAndRecord {
        slot: 1,
    }));

    let (s, a) = step(s, FrameEvent::FrameRecorded);
    assert_eq!((s, a), (FrameState::Submitted { slot: 1 }, FrameAction::SubmitQueue { slot: 1 }));

    let (s, a) = step(s, FrameEvent::SubmitIssued);
    assert_eq!((s, a), (FrameState::Presenting { slot: 1 }, FrameAction::PresentImage {
        slot: 1,
    }));

    let (s, a) = step(s, FrameEvent::PresentIssued);
    assert_eq!((s, a), (FrameState::Idle, FrameAction::WaitDeviceIdle));
}

#[test]
fn quit_terminates_from_every_state() {
    let states = [
        FrameState::Idle,
        FrameState::Acquiring,
        FrameState::Recording { slot: 0 },
        FrameState::Submitted { slot: 0 },
        FrameState::Presenting { slot: 0 },
    ];
    for s in states {
        let (next, action) = step(s, FrameEvent::QuitRequested);
        assert_eq!(next, FrameState::Terminated);
        assert_eq!(action, FrameAction::TearDown);
    }
}

#[test]
fn acquire_failure_is_fatal_for_the_session() {
    let (s, a) = step(FrameState::Acquiring, FrameEvent::AcquireFailed);
    assert_eq!((s, a), (FrameState::Terminated, FrameAction::TearDown));
}

#[test]
fn present_failure_is_fatal_for_the_session() {
    let (s, a) = step(FrameState::Presenting { slot: 0 }, FrameEvent::PresentFailed);
    assert_eq!((s, a), (FrameState::Terminated, FrameAction::TearDown));
}

#[test]
fn terminated_absorbs_every_event() {
    let events = [
        FrameEvent::QuitRequested,
        FrameEvent::InputProcessed,
        FrameEvent::ImageAcquired { index: 0 },
        FrameEvent::AcquireFailed,
        FrameEvent::FrameRecorded,
        FrameEvent::SubmitIssued,
        FrameEvent::PresentIssued,
        FrameEvent::PresentFailed,
    ];
    for e in events {
        let (next, action) = step(FrameState::Terminated, e);
        assert_eq!(next, FrameState::Terminated);
        assert_eq!(action, FrameAction::Halt);
    }
}

#[test]
fn an_event_out_of_protocol_terminates() {
    let (s, a) = step(FrameState::Idle, FrameEvent::FrameRecorded);
    assert_eq!((s, a), (FrameState::Terminated, FrameAction::TearDown));
    let (s, a) = step(FrameState::Acquiring, FrameEvent::PresentIssued);
    assert_eq!((s, a), (FrameState::Terminated, FrameAction::TearDown));
}
