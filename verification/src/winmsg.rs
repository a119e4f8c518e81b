//! Window-message decisions.
//!
//! The OS delivers window messages through an external callback and a
//! message pump; both only forward plain values here and then perform the
//! decided action.  The message and key codes below are the OS's own.

use vstd::prelude::*;

verus! {

/// The window is being destroyed.
pub const WM_DESTROY: u32 = 0x0002;

/// The window was asked to close.
pub const WM_CLOSE: u32 = 0x0010;

/// The message pump retrieved a quit request.
pub const WM_QUIT: u32 = 0x0012;

/// A key was pressed.
pub const WM_KEYDOWN: u32 = 0x0100;

/// Key code of the escape key, as delivered in a key-down message's
/// parameter.
pub const KEY_CODE_ESCAPE: usize = 0x1B;

/// What the window callback does with a message.
#[derive(Clone, Copy, Debug, PartialEq, Eq, Structural)]
pub enum WindowAction {
    /// Destroy the window now.
    DestroyWindow,
    /// Post the quit request that ends the message pump.
    PostQuit,
    /// Hand the message to the system's default handler.
    ForwardToSystem,
}

/// The callback's decision for one message.  The escape-key guard covers
/// the close message too: a close request only destroys the window directly
/// when its parameter happens to equal the escape key code; otherwise it is
/// forwarded, and the system's default handling closes the window.  A
/// destroy notification posts the quit request.
pub open spec fn spec_window_message_action(message: u32, w_param: usize) -> WindowAction {
    if (message == WM_CLOSE || message == WM_KEYDOWN) && w_param == KEY_CODE_ESCAPE {
        WindowAction::DestroyWindow
    } else if message == WM_DESTROY {
        WindowAction::PostQuit
    } else {
        WindowAction::ForwardToSystem
    }
}

/// The callback's decision for one message.
#[verifier::when_used_as_spec(spec_window_message_action)]
pub fn window_message_action(message: u32, w_param: usize) -> (r: WindowAction)
    ensures
        r == spec_window_message_action(message, w_param),
{
    if (message == WM_CLOSE || message == WM_KEYDOWN) && w_param == KEY_CODE_ESCAPE {
        WindowAction::DestroyWindow
    } else if message == WM_DESTROY {
        WindowAction::PostQuit
    } else {
        WindowAction::ForwardToSystem
    }
}

/// What one poll of the message pump leads to.
#[derive(Clone, Copy, Debug, PartialEq, Eq, Structural)]
pub enum PumpStep {
    /// No message was pending: render the next frame.
    RenderFrame,
    /// Polling itself failed: fatal.
    Fail,
    /// A message was retrieved: translate and dispatch it, then quit or
    /// render depending on whether it was the quit request.
    Dispatch { quit: bool },
}

/// The decision after one poll of the message pump, from the poll's return
/// code and the retrieved message's code: no pending message renders a
/// frame, a failed poll is fatal, and a retrieved message is dispatched —
/// ending the loop if it is the quit request.
pub open spec fn spec_pump_decision(poll_result: i32, message: u32) -> PumpStep {
    if poll_result == 0 {
        PumpStep::RenderFrame
    } else if poll_result == -1 {
        PumpStep::Fail
    } else {
        PumpStep::Dispatch { quit: message == WM_QUIT }
    }
}

/// The decision after one poll of the message pump.
#[verifier::when_used_as_spec(spec_pump_decision)]
pub fn pump_decision(poll_result: i32, message: u32) -> (r: PumpStep)
    ensures
        r == spec_pump_decision(poll_result, message),
{
    if poll_result == 0 {
        PumpStep::RenderFrame
    } else if poll_result == -1 {
        PumpStep::Fail
    } else {
        PumpStep::Dispatch { quit: message == WM_QUIT }
    }
}

} // verus!
