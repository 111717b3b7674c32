//! Transient messages that can be attached to any part of a request.

use crate::colour::Colour;
use vstd::prelude::*;
use vstd::string::StringExecFns;

verus! {

/// How serious a [`Notification`] is. Only `ERROR` keeps a request from being sent.
#[allow(clippy::upper_case_acronyms)]
#[derive(Clone, Copy, Debug, PartialEq, Eq, Structural)]
pub enum NotificationKind {
    INFO,
    ERROR,
    WARN,
}

impl Default for NotificationKind {
    fn default() -> (kind: Self)
        ensures
            kind == NotificationKind::INFO,
    {
        NotificationKind::INFO
    }
}

impl NotificationKind {
    /// The colour in which a notification of this kind is drawn.
    pub open spec fn colour(self, dark_mode: bool) -> Colour {
        match self {
            NotificationKind::INFO => if dark_mode {
                Colour::LightGreen
            } else {
                Colour::DarkGreen
            },
            NotificationKind::ERROR => Colour::Red,
            NotificationKind::WARN => Colour::Orange,
        }
    }

    /// The colour of this kind; without a theme the light one is taken.
    pub fn to_colour(&self, dark_mode: Option<bool>) -> (colour: Colour)
        ensures
            colour == self.colour(dark_mode == Some(true)),
    {
        let is_dark_mode = match dark_mode {
            Some(dark) => dark,
            None => false,
        };
        match self {
            NotificationKind::INFO => {
                if is_dark_mode {
                    Colour::LightGreen
                } else {
                    Colour::DarkGreen
                }
            },
            NotificationKind::ERROR => Colour::Red,
            NotificationKind::WARN => Colour::Orange,
        }
    }
}

/// What a notification shows: its kind and its text.
pub struct Message {
    pub kind: NotificationKind,
    pub text: Seq<char>,
}

struct NotificationInner {
    kind: NotificationKind,
    message: String,
}

/// A message slot: empty, or holding one message of a kind.
pub struct Notification {
    inner: Option<NotificationInner>,
}

impl View for Notification {
    type V = Option<Message>;

    closed spec fn view(&self) -> Option<Message> {
        match self.inner {
            Some(inner) => Some(Message { kind: inner.kind, text: inner.message@ }),
            None => None,
        }
    }
}

impl DeepView for Notification {
    type V = Option<Message>;

    open spec fn deep_view(&self) -> Option<Message> {
        self@
    }
}

/// Whether a slot holds a message of kind `ERROR`.
pub open spec fn is_error(slot: Option<Message>) -> bool {
    slot matches Some(m) && m.kind == NotificationKind::ERROR
}

impl Default for Notification {
    fn default() -> (slot: Self)
        ensures
            slot@ is None,
    {
        Notification { inner: None }
    }
}

impl Clone for Notification {
    fn clone(&self) -> (copy: Self)
        ensures
            copy@ == self@,
    {
        match &self.inner {
            Some(inner) => Notification {
                inner: Some(NotificationInner { kind: inner.kind, message: inner.message.clone() }),
            },
            None => Notification { inner: None },
        }
    }
}

impl Notification {
    /// A slot that shows `message` as a notification of `kind`.
    pub fn new(message: &str, kind: NotificationKind) -> (slot: Self)
        ensures
            slot@ == Some(Message { kind, text: message@ }),
    {
        Notification { inner: Some(NotificationInner { kind, message: String::from_str(message) }) }
    }

    /// Empties the slot.
    pub fn clear(&mut self)
        ensures
            final(self)@ is None,
    {
        self.inner = None;
    }

    /// Whether the slot holds a message.
    pub fn is_shown(&self) -> (shown: bool)
        ensures
            shown == self@ is Some,
    {
        self.inner.is_some()
    }

    /// The kind of the message held, if any.
    pub fn kind(&self) -> (kind: Option<NotificationKind>)
        ensures
            kind == match self@ {
                Some(m) => Some(m.kind),
                None => None,
            },
    {
        match &self.inner {
            Some(inner) => Some(inner.kind),
            None => None,
        }
    }

    /// The text of the message held, if any.
    pub fn message(&self) -> (text: Option<&str>)
        ensures
            match self@ {
                Some(m) => text matches Some(t) && t@ == m.text,
                None => text is None,
            },
    {
        match &self.inner {
            Some(inner) => Some(inner.message.as_str()),
            None => None,
        }
    }

    /// Whether the slot holds an error, the one kind that blocks sending.
    pub fn is_error(&self) -> (error: bool)
        ensures
            error == is_error(self@),
    {
        match &self.inner {
            Some(inner) => inner.kind == NotificationKind::ERROR,
            None => false,
        }
    }
}

} // verus!
