//! The two ends of the bounded channels that join the control surface to
//! the audio callback. Neither end ever blocks here.

use vstd::prelude::*;

verus! {

/// Slots in the channel that carries commands to the audio callback.
pub const COMMAND_CAPACITY: usize = 1024;

/// Slots in the channel that carries transport snapshots back.
pub const STATE_CAPACITY: usize = 64;

/// `crossbeam_channel::Receiver`, the receiving end of a channel; nothing
/// is known of what it holds.
#[verifier::external_type_specification]
#[verifier::external_body]
#[verifier::reject_recursive_types(T)]
pub struct ExReceiver<T>(crossbeam_channel::Receiver<T>);

/// `crossbeam_channel::Sender`, the sending end of a channel; nothing is
/// known of what it holds.
#[verifier::external_type_specification]
#[verifier::external_body]
#[verifier::reject_recursive_types(T)]
pub struct ExSender<T>(crossbeam_channel::Sender<T>);

/// Why a channel did not take a message.
#[derive(Clone, Copy, Debug, PartialEq, Eq, Structural)]
pub enum QueueError {
    /// Every slot was taken.
    Full,
    /// No receiver is left.
    Disconnected,
}

impl QueueError {
    /// The error in words.
    pub fn message(self) -> (text: &'static str)
        ensures
            text@ == (match self {
                QueueError::Full => "sending on a full channel"@,
                QueueError::Disconnected => "sending on a disconnected channel"@,
            }),
    {
        match self {
            QueueError::Full => "sending on a full channel",
            QueueError::Disconnected => "sending on a disconnected channel",
        }
    }
}

/// Calls `crossbeam_channel::Receiver::try_recv`, which returns at once:
/// a message that was waiting, or nothing when the channel is empty or has
/// lost its senders. Whether a message waits depends on the other threads,
/// so nothing is claimed of the result.
#[verifier::external_body]
pub(crate) fn poll<T>(rx: &crossbeam_channel::Receiver<T>) -> (msg: Option<T>) {
    rx.try_recv().ok()
}

/// A message that a channel did not take, handed back with the reason.
#[derive(Debug)]
pub struct Refused<T> {
    pub reason: QueueError,
    /// The message as it was offered.
    pub item: T,
}

/// Calls `crossbeam_channel::Sender::try_send`, which returns at once:
/// the channel took the message, or it was full, or it has lost its
/// receivers. Which of these happens depends on the other threads, so
/// nothing is claimed of that. In both errors the channel hands the
/// message back as it got it, and that is claimed.
#[verifier::external_body]
pub(crate) fn offer<T>(tx: &crossbeam_channel::Sender<T>, msg: T) -> (outcome: Result<
    (),
    Refused<T>,
>)
    ensures
        outcome matches Err(refused) ==> refused.item == msg,
{
    match tx.try_send(msg) {
        Ok(()) => Ok(()),
        Err(crossbeam_channel::TrySendError::Full(item)) => Err(
            Refused { reason: QueueError::Full, item },
        ),
        Err(crossbeam_channel::TrySendError::Disconnected(item)) => Err(
            Refused { reason: QueueError::Disconnected, item },
        ),
    }
}

} // verus!
