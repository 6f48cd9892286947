//! The way back of an actor's answer to the one who asked: a channel of bound
//! one, of which the asker holds the receiving end and the envelope the
//! sending end.
use vstd::prelude::*;

use crate::{channel, MailboxClosed, Receiver, Sender};

verus! {

/// A channel for one answer: both ends on one channel of bound one, so the
/// single answer never waits for room.
pub fn reply_channel<R>() -> (res: (Sender<R>, Receiver<R>))
    ensures
        res.0.channel_id() == res.1.channel_id(),
        res.0.capacity() == 1,
        res.1.capacity() == 1,
{
    channel(1)
}

/// Hands `value` to the asker, if there is one.
///
/// Returns what was not delivered: `value` itself when there is no asker, or
/// when the asker stopped waiting; `None` once the answer is on its way.
pub fn deliver<R>(reply: Option<Sender<R>>, value: R) -> (undelivered: Option<R>)
    ensures
        reply is None ==> undelivered == Some(value),
        undelivered matches Some(back) ==> back == value,
{
    match reply {
        Some(sender) => match sender.send_sync(value) {
            Ok(()) => None,
            Err(back) => Some(back),
        },
        None => Some(value),
    }
}

/// What an asker gets, from whether its question was posted and what came
/// back on its reply channel: nothing when the mailbox refused the question,
/// the answer that came back otherwise.
pub fn asked<R>(sent: Result<(), MailboxClosed>, got: Option<R>) -> (res: Option<R>)
    ensures
        sent is Err ==> res is None,
        sent is Ok ==> res == got,
{
    match sent {
        Ok(()) => got,
        Err(MailboxClosed) => None,
    }
}

} // verus!
