//! The frame loop as a state machine.
//!
//! One frame runs Idle → Acquiring → Recording → Submitted → Presenting →
//! Idle; Terminated is the absorbing end state.  The loop itself is driven
//! by the unverified shell: `step` takes the current state and the event
//! that just happened, and returns the next state together with the one
//! action the shell must perform on entering it.  An OS quit request or any
//! unrecoverable API failure terminates the session from every state; no
//! acquire or present failure is retried.

use vstd::prelude::*;

verus! {

/// Where the frame loop stands.  The slot index carried through Recording,
/// Submitted and Presenting is the acquired presentable-image index.
#[derive(Clone, Copy, Debug, PartialEq, Eq, Structural)]
pub enum FrameState {
    /// Between frames: ready to process input and start the next frame.
    Idle,
    /// The next presentable image was requested; waiting for its index.
    Acquiring,
    /// The acquired slot is being written and its command buffer recorded.
    Recording { slot: u32 },
    /// The frame's one queue submission was issued.
    Submitted { slot: u32 },
    /// The present request for the frame was issued.
    Presenting { slot: u32 },
    /// The session is over; only teardown remains.
    Terminated,
}

/// What just happened, as the shell reports it.
#[derive(Clone, Copy, Debug, PartialEq, Eq, Structural)]
pub enum FrameEvent {
    /// The OS asked the process to quit.
    QuitRequested,
    /// Input was processed and no quit arrived: start the next frame.
    InputProcessed,
    /// Acquisition returned this presentable-image index.
    ImageAcquired { index: u32 },
    /// Acquisition failed; fatal for the session.
    AcquireFailed,
    /// The slot was written and its command buffer recorded.
    FrameRecorded,
    /// The queue accepted the frame's submission.
    SubmitIssued,
    /// The present request was accepted.
    PresentIssued,
    /// The present request failed; fatal for the session.
    PresentFailed,
}

/// The one action the shell performs after each step.
#[derive(Clone, Copy, Debug, PartialEq, Eq, Structural)]
pub enum FrameAction {
    /// Request the next presentable image; block until it is ready.
    AcquireImage,
    /// Write the slot's regions and re-record its command buffer.
    WriteAndRecord { slot: u32 },
    /// Submit the recorded work, waiting on the acquire signal and
    /// signalling the release signal.
    SubmitQueue { slot: u32 },
    /// Request presentation, waiting on the release signal.
    PresentImage { slot: u32 },
    /// Drain the device queue completely, then process input again.
    WaitDeviceIdle,
    /// Tear every resource down in order and end the session.
    TearDown,
    /// Nothing remains to be done.
    Halt,
}

/// The transition relation of the loop.  A quit request terminates from
/// every state; an event that its state cannot accept is an unrecoverable
/// fault and terminates too; Terminated absorbs everything.
pub open spec fn spec_step(s: FrameState, e: FrameEvent) -> (FrameState, FrameAction) {
    match (s, e) {
        (FrameState::Terminated, _) => (FrameState::Terminated, FrameAction::Halt),
        (_, FrameEvent::QuitRequested) => (FrameState::Terminated, FrameAction::TearDown),
        (FrameState::Idle, FrameEvent::InputProcessed) => (
            FrameState::Acquiring,
            FrameAction::AcquireImage,
        ),
        (FrameState::Acquiring, FrameEvent::ImageAcquired { index }) => (
            FrameState::Recording { slot: index },
            FrameAction::WriteAndRecord { slot: index },
        ),
        (FrameState::Acquiring, FrameEvent::AcquireFailed) => (
            FrameState::Terminated,
            FrameAction::TearDown,
        ),
        (FrameState::Recording { slot }, FrameEvent::FrameRecorded) => (
            FrameState::Submitted { slot },
            FrameAction::SubmitQueue { slot },
        ),
        (FrameState::Submitted { slot }, FrameEvent::SubmitIssued) => (
            FrameState::Presenting { slot },
            FrameAction::PresentImage { slot },
        ),
        (FrameState::Presenting { .. }, FrameEvent::PresentIssued) => (
            FrameState::Idle,
            FrameAction::WaitDeviceIdle,
        ),
        (FrameState::Presenting { .. }, FrameEvent::PresentFailed) => (
            FrameState::Terminated,
            FrameAction::TearDown,
        ),
        _ => (FrameState::Terminated, FrameAction::TearDown),
    }
}

/// Advances the frame loop by one event.
pub fn step(s: FrameState, e: FrameEvent) -> (r: (FrameState, FrameAction))
    ensures
        r == spec_step(s, e),
        s is Terminated ==> r.0 is Terminated,
        r.0 is Terminated <==> (r.1 is TearDown || r.1 is Halt),
{
    match (s, e) {
        (FrameState::Terminated, _) => (FrameState::Terminated, FrameAction::Halt),
        (_, FrameEvent::QuitRequested) => (FrameState::Terminated, FrameAction::TearDown),
        (FrameState::Idle, FrameEvent::InputProcessed) => (
            FrameState::Acquiring,
            FrameAction::AcquireImage,
        ),
        (FrameState::Acquiring, FrameEvent::ImageAcquired { index }) => (
            FrameState::Recording { slot: index },
            FrameAction::WriteAndRecord { slot: index },
        ),
        (FrameState::Acquiring, FrameEvent::AcquireFailed) => (
            FrameState::Terminated,
            FrameAction::TearDown,
        ),
        (FrameState::Recording { slot }, FrameEvent::FrameRecorded) => (
            FrameState::Submitted { slot },
            FrameAction::SubmitQueue { slot },
        ),
        (FrameState::Submitted { slot }, FrameEvent::SubmitIssued) => (
            FrameState::Presenting { slot },
            FrameAction::PresentImage { slot },
        ),
        (FrameState::Presenting { slot: _ }, FrameEvent::PresentIssued) => (
            FrameState::Idle,
            FrameAction::WaitDeviceIdle,
        ),
        (FrameState::Presenting { slot: _ }, FrameEvent::PresentFailed) => (
            FrameState::Terminated,
            FrameAction::TearDown,
        ),
        _ => (FrameState::Terminated, FrameAction::TearDown),
    }
}

} // verus!
