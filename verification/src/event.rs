//! The values that pass between the host and the decisions.

use vstd::prelude::*;
use vstd::string::StringExecFns;

verus! {

/// A window event, reduced to what the application reacts to.
#[derive(Clone, Copy, Debug, PartialEq, Eq, Structural)]
pub enum WindowEvent {
    /// The window gained (`true`) or lost (`false`) input focus.
    Focused(bool),
    /// Any other event of a window: a resize, a move, a close request.
    Other,
}

impl WindowEvent {
    /// The event says that the window no longer has input focus.
    pub open spec fn is_focus_loss(self) -> bool {
        self == WindowEvent::Focused(false)
    }
}

/// A notification for every listener on the application's event bus.
#[derive(Debug, PartialEq, Eq)]
pub struct Notification {
    /// The name that listeners subscribe to.
    pub name: String,
    /// The data sent along, `None` where the notification carries none.
    pub payload: Option<String>,
}

/// What a [`Notification`] is, as plain mathematical values.
pub struct NotificationView {
    pub name: Seq<char>,
    pub payload: Option<Seq<char>>,
}

impl View for Notification {
    type V = NotificationView;

    open spec fn view(&self) -> NotificationView {
        NotificationView {
            name: self.name@,
            payload: match self.payload {
                Some(data) => Some(data@),
                None => None,
            },
        }
    }
}

impl Clone for Notification {
    fn clone(&self) -> (copy: Self)
        ensures
            copy@ == self@,
    {
        let payload = match &self.payload {
            Some(data) => Some(data.clone()),
            None => None,
        };
        Notification { name: self.name.clone(), payload }
    }
}

/// The name under which the loss of focus is announced.
pub const PAUSE_EVENT: &'static str = "pause";

/// The notification that tells listeners to pause: its name, and no data.
pub open spec fn pause_notification() -> NotificationView {
    NotificationView { name: PAUSE_EVENT@, payload: None }
}

impl Notification {
    /// Makes the pause notification.
    pub fn pause() -> (notification: Notification)
        ensures
            notification@ == pause_notification(),
    {
        Notification { name: String::from_str(PAUSE_EVENT), payload: None }
    }
}

} // verus!
