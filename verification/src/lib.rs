//! Channels and actors.
//!
//! [`channel`] makes a bounded multi-producer, multi-consumer channel (a
//! [`Sender`] and a [`Receiver`] over `flume`). The [`thread`] module builds
//! actors on top of it: an [`thread::Adress`] puts envelopes into the mailbox
//! of an actor, and each worker of the actor takes them out one at a time and
//! runs the actor's handler on them.
use vstd::prelude::*;

pub mod flume_calls;
pub mod laws;
pub mod reply;
pub mod thread;

pub use crate::flume_calls::{Receiver, Sender};

use crate::flume_calls::{flume_bounded, flume_receiver_clone, flume_recv, flume_send, flume_sender_clone};

verus! {

/// The mailbox of an actor is closed: every worker of the actor has stopped.
#[derive(PartialEq, Eq, Structural, Clone, Copy, Debug)]
pub struct MailboxClosed;

impl<T> Sender<T> {
    /// Sends `msg`, waiting while the channel is full.
    ///
    /// Never panics: when every receiver of the channel is gone, it fails and
    /// hands `msg` back.
    pub fn send_sync(&self, msg: T) -> (res: Result<(), T>)
        ensures
            res matches Err(back) ==> back == msg,
    {
        flume_send(self.as_flume(), msg)
    }
}

impl<T> Clone for Sender<T> {
    /// Another handle on the same channel.
    fn clone(&self) -> (res: Self)
        ensures
            res.channel_id() == self.channel_id(),
            res.capacity() == self.capacity(),
    {
        flume_sender_clone(self)
    }
}

impl<T> Receiver<T> {
    /// Waits for the next message of the channel.
    ///
    /// Returns `None` once every sender is gone and nothing is left in the
    /// channel; `Some` with a message otherwise.
    pub fn recv_sync(&self) -> (res: Option<T>) {
        received(flume_recv(self.as_flume()))
    }
}

impl<T> Clone for Receiver<T> {
    /// Another handle on the same channel; each message still goes to one
    /// receiver only.
    fn clone(&self) -> (res: Self)
        ensures
            res.channel_id() == self.channel_id(),
            res.capacity() == self.capacity(),
    {
        flume_receiver_clone(self)
    }
}

/// What a receive yields, from what the channel answered: the message, or
/// `None` when the channel was closed and empty.
pub fn received<T>(answer: Result<T, flume::RecvError>) -> (res: Option<T>)
    ensures
        res == answer.ok(),
{
    match answer {
        Ok(msg) => Some(msg),
        Err(_) => None,
    }
}

/// Makes a channel that holds at most `cap` messages at a time (with `cap`
/// zero, each send waits for a receiver to take the message); the two
/// handles are on that one channel.
pub fn channel<T>(cap: usize) -> (res: (Sender<T>, Receiver<T>))
    ensures
        res.0.channel_id() == res.1.channel_id(),
        res.0.capacity() == cap,
        res.1.capacity() == cap,
{
    flume_bounded(cap)
}

} // verus!
