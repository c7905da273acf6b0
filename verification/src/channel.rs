//! The channel on which the user is told.

use crate::notification::Notification;
use crossbeam_channel::Sender;
use vstd::prelude::*;

verus! {

/// `crossbeam_channel::Sender`, the sending half of a channel between threads. What the channel
/// holds changes under the hands of other threads, so nothing is said of it.
#[verifier::external_type_specification]
#[verifier::external_body]
#[verifier::reject_recursive_types(T)]
pub struct ExSender<T>(crossbeam_channel::Sender<T>);

/// A notification that did not go out, and why.
#[derive(Debug, Clone, PartialEq, Eq)]
pub enum Undelivered {
    /// The channel had no room.
    Full(Notification),
    /// The user dropped the receiving half.
    Disconnected(Notification),
}

impl Undelivered {
    /// The notification itself.
    pub open spec fn message(self) -> Notification {
        match self {
            Undelivered::Full(notification) => notification,
            Undelivered::Disconnected(notification) => notification,
        }
    }
}

/// A notification on its way to a channel. Nothing but `try_send` gets at the channel, and that uses
/// the value up: whoever holds one can send this notification, at most once, and no other.
#[derive(Debug)]
pub struct Outgoing<'a> {
    notification: Notification,
    notification_tx: &'a Sender<Notification>,
}

impl<'a> Outgoing<'a> {
    /// The notification.
    pub closed spec fn notification(self) -> Notification {
        self.notification
    }

    /// The channel that it goes to.
    pub closed spec fn channel(self) -> Sender<Notification> {
        *self.notification_tx
    }

    /// A notification on its way to the given channel.
    pub fn new(notification: Notification, notification_tx: &'a Sender<Notification>) -> (outgoing:
        Self)
        ensures
            outgoing.notification() == notification,
            outgoing.channel() == *notification_tx,
    {
        Outgoing { notification, notification_tx }
    }

    /// Whether there is nothing to tell.
    pub fn is_empty(&self) -> (empty: bool)
        ensures
            empty == (self.notification() is Empty),
    {
        matches!(self.notification, Notification::Empty)
    }
}

/// Calls `crossbeam_channel::Sender::try_send`, which never blocks, with the notification on the
/// channel that it is on its way to. Claims that a notification that the channel does not take is
/// handed back unchanged. Whether the channel takes it depends on its room and on the other
/// threads, and is left unsaid. Nothing is sent where there is nothing to tell.
#[verifier::external_body]
pub fn try_send(outgoing: Outgoing) -> (sent: Result<(), Undelivered>)
    requires
        !(outgoing.notification() is Empty),
    ensures
        sent matches Err(undelivered) ==> undelivered.message() == outgoing.notification(),
{
    outgoing.notification_tx.try_send(outgoing.notification).map_err(|e| match e {
        crossbeam_channel::TrySendError::Full(n) => Undelivered::Full(n),
        crossbeam_channel::TrySendError::Disconnected(n) => Undelivered::Disconnected(n),
    })
}

} // verus!
