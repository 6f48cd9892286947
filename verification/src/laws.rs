//! Laws of the channels and actors: what each operation does to the channel
//! a handle is on and to that channel's bound, for every input.
use vstd::prelude::*;

use crate::channel;
use crate::thread::{ActorThreaded, Adress, Enveloppe, SyncChannelHandler, Worker};
use crate::{Receiver, Sender};

verus! {

/// `channel(cap)` makes its two halves on one channel, and that channel is
/// bounded by `cap` itself: with `cap` zero no message waits in it.
pub proof fn law_channel_is_bounded_by_cap<T>(cap: usize, made: (Sender<T>, Receiver<T>))
    requires
        call_ensures(channel::<T>, (cap,), made),
    ensures
        made.0.channel_id() == made.1.channel_id(),
        made.0.capacity() == cap,
        made.1.capacity() == cap,
{
}

/// A clone of a sender, or of a receiver, is a handle on the very channel
/// of the original, with its bound.
pub proof fn law_clones_stay_on_the_channel<T>(
    sender: Sender<T>,
    sender_clone: Sender<T>,
    receiver: Receiver<T>,
    receiver_clone: Receiver<T>,
)
    requires
        call_ensures(<Sender<T> as Clone>::clone, (&sender,), sender_clone),
        call_ensures(<Receiver<T> as Clone>::clone, (&receiver,), receiver_clone),
    ensures
        sender_clone.channel_id() == sender.channel_id(),
        sender_clone.capacity() == sender.capacity(),
        receiver_clone.channel_id() == receiver.channel_id(),
        receiver_clone.capacity() == receiver.capacity(),
{
}

/// An actor started on one worker has a mailbox that holds one envelope, and
/// the worker receives from the channel its address sends on, with the actor
/// itself.
pub proof fn law_one_worker_serves_the_address<A: ActorThreaded + Send + 'static>(
    act: A,
    started: (Adress<A>, Worker<A>),
)
    requires
        call_ensures(Adress::<A>::with_worker, (act,), started),
    ensures
        started.1.mailbox.channel_id() == started.0.channel_id(),
        started.0.capacity() == 1,
        started.1.mailbox.capacity() == 1,
        started.1.actor == act,
{
}

/// A clone of an address reaches the same actor: it sends on the channel
/// that the actor's worker receives from.
pub proof fn law_clone_of_an_address_reaches_its_worker<A: ActorThreaded + Send + 'static>(
    act: A,
    started: (Adress<A>, Worker<A>),
    other: Adress<A>,
)
    requires
        call_ensures(Adress::<A>::with_worker, (act,), started),
        call_ensures(<Adress<A> as Clone>::clone, (&started.0,), other),
    ensures
        other.channel_id() == started.1.mailbox.channel_id(),
        other.capacity() == 1,
{
}

/// An actor started on `num_threads` workers: every one of them, each with a
/// clone of the actor, receives from the channel its address sends on, and
/// that mailbox holds `num_threads` envelopes.
pub proof fn law_all_workers_share_the_address_mailbox<A: ActorThreaded + Send + 'static + Clone>(
    act: A,
    num_threads: usize,
    started: (Adress<A>, Vec<Worker<A>>),
)
    requires
        call_ensures(Adress::<A>::with_workers, (act, num_threads), started),
    ensures
        started.1.len() == num_threads,
        started.0.capacity() == num_threads,
        forall|i: int|
            #![trigger started.1[i]]
            0 <= i < num_threads ==> {
                &&& started.1[i].mailbox.channel_id() == started.0.channel_id()
                &&& started.1[i].mailbox.capacity() == num_threads
                &&& cloned(act, started.1[i].actor)
            },
{
}

/// The channel of a stream of answers holds one answer, and its receiving
/// end is on the channel of the sender inside the envelope.
pub proof fn law_answer_stream_holds_one_answer<A, M, R>(msg: M, made: (Enveloppe<A>, Receiver<R>))
    where
        M: Send + 'static,
        R: Send + 'static,
        A: ActorThreaded + SyncChannelHandler<M, R> + Send + 'static,

    requires
        call_ensures(Enveloppe::<A>::ask_stream::<M, R>, (msg,), made),
    ensures
        made.1.capacity() == 1,
        made.0.reply_channel() == made.1.channel_id(),
{
}

/// Asking an address for a stream of answers gives a channel that holds one
/// answer.
pub proof fn law_asked_stream_holds_one_answer<A, M, R>(adress: Adress<A>, msg: M, stream: Receiver<R>)
    where
        M: Send + 'static,
        R: Send + 'static,
        A: ActorThreaded + SyncChannelHandler<M, R> + Send + 'static,

    requires
        call_ensures(Adress::<A>::ask_channel_sync::<M, R>, (&adress, msg), stream),
    ensures
        stream.capacity() == 1,
{
}

} // verus!
