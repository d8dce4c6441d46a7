//! The notification gate: no message is shown twice in a row.

use vstd::prelude::*;
use vstd::string::*;
use crate::icons;

verus! {

/// Title of every notification of the booster.
pub const TITLE: &'static str = "Hayaku-Ike";

/// A request to show one desktop notification.
#[derive(Debug, Clone)]
pub struct Notification {
    pub title: String,
    pub message: String,
    /// Asset of the state that is announced; see [`icons::resolve_icon`].
    pub icon: String,
}

/// Mathematical value of a [`Notification`].
pub struct NotificationView {
    pub title: Seq<char>,
    pub message: Seq<char>,
    pub icon: Seq<char>,
}

impl View for Notification {
    type V = NotificationView;

    open spec fn view(&self) -> NotificationView {
        NotificationView { title: self.title@, message: self.message@, icon: self.icon@ }
    }
}

/// The view of an optional notification.
pub open spec fn notification_view(n: Option<Notification>) -> Option<NotificationView> {
    match n {
        Some(n) => Some(n@),
        None => None,
    }
}

/// Remembers the last message that was handed out, and lets a message pass
/// only if it differs from that one.
#[derive(Debug, Clone)]
pub struct NotificationGate {
    pub last_message: Option<String>,
}

impl View for NotificationGate {
    /// The last message that was handed out, if any.
    type V = Option<Seq<char>>;

    open spec fn view(&self) -> Option<Seq<char>> {
        match self.last_message {
            Some(m) => Some(m@),
            None => None,
        }
    }
}

/// What the notification gate lets out for `message` when `last` was the
/// last message.
pub open spec fn gate_output(
    last: Option<Seq<char>>,
    title: Seq<char>,
    message: Seq<char>,
    icon: Seq<char>,
) -> Option<NotificationView> {
    if last == Some(message) {
        None
    } else {
        Some(NotificationView { title, message, icon })
    }
}

impl NotificationGate {
    /// A gate that has not let anything out yet.
    pub fn new() -> (gate: NotificationGate)
        ensures
            gate@ is None,
    {
        NotificationGate { last_message: None }
    }

    /// Tells whether `message` would be held back as a repeat.
    pub fn is_repeat(&self, message: &str) -> (repeat: bool)
        ensures
            repeat == (self@ == Some(message@)),
    {
        match &self.last_message {
            Some(last) => {
                let owned = String::from_str(message);
                *last == owned
            },
            None => false,
        }
    }

    /// Hands out a notification unless `message` repeats the last message.
    /// The message is remembered in either case, whether or not the
    /// notification can be displayed afterwards.
    pub fn notify(&mut self, title: &str, message: &str, icon_path: &str) -> (out: Option<
        Notification,
    >)
        ensures
            final(self)@ == Some(message@),
            notification_view(out) == gate_output(old(self)@, title@, message@, icon_path@),
    {
        if self.is_repeat(message) {
            None
        } else {
            self.last_message = Some(String::from_str(message));
            Some(
                Notification {
                    title: String::from_str(title),
                    message: String::from_str(message),
                    icon: String::from_str(icon_path),
                },
            )
        }
    }
}

/// Announces that the system is idle and the booster active.
pub fn notify_idle(gate: &mut NotificationGate, message: &str) -> (out: Option<Notification>)
    ensures
        final(gate)@ == Some(message@),
        notification_view(out) == gate_output(old(gate)@, TITLE@, message@, icons::IDLE@),
{
    gate.notify(TITLE, message, icons::IDLE)
}

/// Announces that the system is busy and the booster held back.
pub fn notify_busy(gate: &mut NotificationGate, message: &str) -> (out: Option<Notification>)
    ensures
        final(gate)@ == Some(message@),
        notification_view(out) == gate_output(old(gate)@, TITLE@, message@, icons::BUSY@),
{
    gate.notify(TITLE, message, icons::BUSY)
}

/// Announces that the user paused the booster.
pub fn notify_paused(gate: &mut NotificationGate, message: &str) -> (out: Option<Notification>)
    ensures
        final(gate)@ == Some(message@),
        notification_view(out) == gate_output(old(gate)@, TITLE@, message@, icons::PAUSED@),
{
    gate.notify(TITLE, message, icons::PAUSED)
}

/// Law: of two requests in a row with the same message, the second is held
/// back, whatever title and icon it carries; so the two let out one
/// notification where that message was not held already, and none where it
/// was.
pub proof fn lemma_repeat_is_suppressed(
    last: Option<Seq<char>>,
    message: Seq<char>,
    title1: Seq<char>,
    icon1: Seq<char>,
    title2: Seq<char>,
    icon2: Seq<char>,
)
    ensures
        gate_output(Some(message), title2, message, icon2) is None,
        last != Some(message) ==> gate_output(last, title1, message, icon1) is Some,
        last == Some(message) ==> gate_output(last, title1, message, icon1) is None,
{
}

} // verus!
