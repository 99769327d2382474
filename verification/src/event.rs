use vstd::prelude::*;
use crate::message::Message;

verus! {

/// The key of a key-press, reduced to what the controller distinguishes.
/// The input collaborator maps raw terminal events to this type and must
/// filter out key releases.
#[derive(Clone, Copy, Debug, PartialEq, Eq)]
pub enum KeyCode {
    Char(char),
    Enter,
    Esc,
    Tab,
    Backspace,
    Delete,
    Up,
    Down,
    Left,
    Right,
    PageUp,
    PageDown,
    Other,
}

/// A key-press: the key together with whether Control was held.
#[derive(Clone, Copy, Debug, PartialEq, Eq)]
pub struct KeyEvent {
    pub code: KeyCode,
    pub ctrl: bool,
}

impl KeyEvent {
    pub fn plain(code: KeyCode) -> (r: Self)
        ensures
            r == (KeyEvent { code, ctrl: false }),
    {
        KeyEvent { code, ctrl: false }
    }

    pub fn control(code: KeyCode) -> (r: Self)
        ensures
            r == (KeyEvent { code, ctrl: true }),
    {
        KeyEvent { code, ctrl: true }
    }
}

/// An application-level event: the result of background work, or a
/// user-triggered intent, delivered to the controller through the shared
/// event queue rather than as a direct return value.
#[derive(Debug)]
pub enum AppEvent {
    /// The store answered a list request with all messages, ascending by id.
    MessagesLoaded(Vec<Message>),
    /// The store answered a body request: the id asked for and the body text.
    MessageBodyLoaded(u64, String),
    /// A send attempt finished: `None` on success, the reason on failure.
    MessageSent(Option<String>),
    /// The user asked to submit the compose draft.
    SendMessage,
    /// Stop the application.
    Quit,
    /// Background store or query work failed. The controller records the
    /// reason for display and carries on; it never stops the event loop.
    Error(String),
}

/// What the controller asks the surrounding program to do after handling an
/// event. The program performs the action and, for store requests, later
/// delivers the outcome as an [`AppEvent`].
#[derive(Debug)]
pub enum Action {
    /// Put this event on the shared event queue.
    Emit(AppEvent),
    /// Ask the store for the full body of the message with this id; the
    /// answer arrives as `AppEvent::MessageBodyLoaded` or `AppEvent::Error`.
    LoadBody(u64),
    /// Submit this message for delivery; the outcome arrives as
    /// `AppEvent::MessageSent`.
    SendMail(Message),
}

} // verus!
