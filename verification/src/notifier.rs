//! The focus-change notifier: the one reaction of the application to its
//! windows.

use crate::event::{pause_notification, Notification, WindowEvent};
use crate::outcome::{judge, judged, Outcome};
use vstd::prelude::*;

verus! {

/// Decides what to emit for one window event: the pause notification when the
/// window has lost focus, nothing for any other event.
///
/// Every event is judged by itself. Nothing is debounced, coalesced or held
/// back: a window that loses focus many times in a row gets one notification
/// each time.
pub fn on_window_event(event: &WindowEvent) -> (emitted: Option<Notification>)
    ensures
        emitted is Some <==> event.is_focus_loss(),
        emitted matches Some(notification) ==> notification@ == pause_notification(),
{
    match event {
        WindowEvent::Focused(false) => Some(Notification::pause()),
        _ => None,
    }
}

/// What opens the diagnostic when a notification could not be emitted.
pub const EMIT_FAILED: &'static str = "called `Result::unwrap()` on an `Err` value: ";

/// Judges what the host returned for an emission. A failure has no recovery
/// path: it ends the process, with a diagnostic that names the cause.
pub fn on_emit_result(result: Result<(), String>) -> (outcome: Outcome)
    ensures
        outcome is Abort <==> result is Err,
        outcome@ == judged(EMIT_FAILED@, result),
{
    judge(EMIT_FAILED, result)
}

} // verus!
