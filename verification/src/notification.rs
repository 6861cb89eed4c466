//! The events by which a failure is made known to the interface.

use vstd::prelude::*;

verus! {

/// How grave a notification is.
#[derive(Clone, Copy, Debug, PartialEq, Eq, Structural)]
pub enum Level {
    Info,
    Warn,
    Error,
}

impl Level {
    /// The number that stands for the level on the wire: 1 for information,
    /// 2 for a warning, 3 for an error.
    pub open spec fn spec_code(self) -> u16 {
        match self {
            Level::Info => 1,
            Level::Warn => 2,
            Level::Error => 3,
        }
    }

    /// The number that stands for the level on the wire.
    #[verifier::when_used_as_spec(spec_code)]
    pub fn code(self) -> (code: u16)
        ensures
            code == self.spec_code(),
    {
        match self {
            Level::Info => 1,
            Level::Warn => 2,
            Level::Error => 3,
        }
    }
}

/// A message for the user: its level, a short sentence, and the diagnostic
/// behind it.
#[derive(Debug)]
pub struct NotificationEvent {
    pub level: u16,
    pub message: String,
    pub details: String,
}

/// What a [`NotificationEvent`] holds, as plain mathematical values.
pub struct NotificationView {
    pub level: u16,
    pub message: Seq<char>,
    pub details: Seq<char>,
}

impl View for NotificationEvent {
    type V = NotificationView;

    open spec fn view(&self) -> NotificationView {
        NotificationView { level: self.level, message: self.message@, details: self.details@ }
    }
}

impl NotificationEvent {
    /// An event of the given level.
    pub fn new(level: Level, message: String, details: String) -> (event: Self)
        ensures
            event@ == (NotificationView {
                level: level.spec_code(),
                message: message@,
                details: details@,
            }),
    {
        NotificationEvent { level: level.code(), message, details }
    }
}

impl Clone for NotificationEvent {
    fn clone(&self) -> (copy: Self)
        ensures
            copy@ == self@,
    {
        NotificationEvent {
            level: self.level,
            message: self.message.clone(),
            details: self.details.clone(),
        }
    }
}

impl PartialEq for NotificationEvent {
    fn eq(&self, other: &Self) -> (equal: bool) {
        self.level == other.level && self.message == other.message && self.details
            == other.details
    }
}

impl vstd::std_specs::cmp::PartialEqSpecImpl for NotificationEvent {
    open spec fn obeys_eq_spec() -> bool {
        true
    }

    open spec fn eq_spec(&self, other: &Self) -> bool {
        self@ == other@
    }
}

/// Hands out the queued notifications in the order in which they were
/// queued, and leaves the queue empty.
pub fn get_startup_notifications(queue: &mut Vec<NotificationEvent>) -> (drained: Vec<
    NotificationEvent,
>)
    ensures
        drained@ == old(queue)@,
        final(queue)@ == Seq::<NotificationEvent>::empty(),
{
    let mut drained: Vec<NotificationEvent> = Vec::new();
    core::mem::swap(queue, &mut drained);
    drained
}

} // verus!
