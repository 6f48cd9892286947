//! The handles on `flume` channels, and the calls into `flume` that the
//! channels make, with what the library takes for granted of each.
//!
//! The model of a handle (which channel it is on, and that channel's bound)
//! lives in private fields, which only the calls into `flume` below set: no
//! other code of the crate can label a handle with another channel or
//! another bound.
use vstd::prelude::*;

use flume::Receiver as FlumeReceiver;
use flume::Sender as FlumeSender;

verus! {

/// The sending half of a bounded channel.
///
/// Its model is the channel it is a handle on, named by
/// [`Sender::channel_id`], and the bound of that channel: how many messages
/// it holds before a send waits. Both are set when `flume` makes or clones
/// the handle, and by nothing else.
#[verifier::reject_recursive_types(T)]
pub struct Sender<T> {
    sender: flume::Sender<T>,
    id: Ghost<int>,
    cap: Ghost<nat>,
}

/// The receiving half of a bounded channel, modelled like [`Sender`] by its
/// channel and the bound of that channel.
#[verifier::reject_recursive_types(T)]
pub struct Receiver<T> {
    receiver: flume::Receiver<T>,
    id: Ghost<int>,
    cap: Ghost<nat>,
}

impl<T> Sender<T> {
    /// A name of the channel this is a handle on: the two halves that
    /// `flume::bounded` makes, and every clone of either, carry the same
    /// name, and nothing else sets it.
    pub closed spec fn channel_id(&self) -> int {
        self.id@
    }

    /// The bound that `flume::bounded` made the channel with.
    pub closed spec fn capacity(&self) -> nat {
        self.cap@
    }

    /// The `flume` handle underneath.
    pub closed spec fn flume_handle(&self) -> flume::Sender<T> {
        self.sender
    }

    /// The `flume` sender underneath, for the callers that await on it.
    pub fn as_flume(&self) -> (s: &flume::Sender<T>)
        ensures
            *s == self.flume_handle(),
    {
        &self.sender
    }
}

impl<T> Receiver<T> {
    /// A name of the channel this is a handle on: the two halves that
    /// `flume::bounded` makes, and every clone of either, carry the same
    /// name, and nothing else sets it.
    pub closed spec fn channel_id(&self) -> int {
        self.id@
    }

    /// The bound that `flume::bounded` made the channel with.
    pub closed spec fn capacity(&self) -> nat {
        self.cap@
    }

    /// The `flume` handle underneath.
    pub closed spec fn flume_handle(&self) -> flume::Receiver<T> {
        self.receiver
    }

    /// The `flume` receiver underneath, for the callers that await on it.
    pub fn as_flume(&self) -> (r: &flume::Receiver<T>)
        ensures
            *r == self.flume_handle(),
    {
        &self.receiver
    }
}

/// `flume::Sender<T>`, held as an opaque handle on a shared channel.
#[verifier::external_type_specification]
#[verifier::external_body]
#[verifier::reject_recursive_types(T)]
pub struct ExFlumeSender<T>(FlumeSender<T>);

/// `flume::Receiver<T>`, held as an opaque handle on a shared channel.
#[verifier::external_type_specification]
#[verifier::external_body]
#[verifier::reject_recursive_types(T)]
pub struct ExFlumeReceiver<T>(FlumeReceiver<T>);

/// `flume::RecvError`: every sender is gone and the channel is empty.
#[verifier::external_type_specification]
#[verifier::external_body]
pub struct ExFlumeRecvError(flume::RecvError);

/// Calls `flume::bounded(cap)` and holds the two handles it returns.
/// Claimed: both handles are on one channel (flume puts one `Arc` of the
/// shared channel in both halves), of bound `cap`, as flume documents for
/// `bounded` (and as its `capacity()` would report).
#[verifier::external_body]
pub(crate) fn flume_bounded<T>(cap: usize) -> (res: (Sender<T>, Receiver<T>))
    ensures
        res.0.channel_id() == res.1.channel_id(),
        res.0.capacity() == cap,
        res.1.capacity() == cap,
{
    let (sender, receiver) = flume::bounded(cap);
    let id: Ghost<int> = Ghost(arbitrary());
    (Sender { sender, id, cap: Ghost(cap as nat) }, Receiver { receiver, id, cap: Ghost(cap as nat) })
}

/// Calls `flume::Sender::send`, turning its `SendError(msg)` into `Err(msg)`.
/// Whether it succeeds depends on the other ends of the channel, so only this
/// is claimed: a failed send gives back the very message it was handed
/// (flume's `send` wraps the message it could not deliver in `SendError`).
/// Left unsaid: on a full channel the call waits, without end if no
/// receiver ever takes a message and none is dropped.
#[verifier::external_body]
pub(crate) fn flume_send<T>(sender: &flume::Sender<T>, msg: T) -> (res: Result<(), T>)
    ensures
        res matches Err(back) ==> back == msg,
{
    match sender.send(msg) {
        Ok(()) => Ok(()),
        Err(flume::SendError(back)) => Err(back),
    }
}

/// Calls `flume::Receiver::recv`. What comes back depends on the other
/// threads that use the channel, so nothing is claimed of it (it waits while
/// the channel is empty and some sender is alive).
#[verifier::external_body]
pub(crate) fn flume_recv<T>(receiver: &flume::Receiver<T>) -> Result<T, flume::RecvError> {
    receiver.recv()
}

/// Calls `<flume::Sender<T> as Clone>::clone`. Claimed: the new handle is
/// on the same channel, so of the same bound (flume's `clone` copies the
/// `Arc` of the shared channel).
#[verifier::external_body]
pub(crate) fn flume_sender_clone<T>(sender: &Sender<T>) -> (res: Sender<T>)
    ensures
        res.channel_id() == sender.channel_id(),
        res.capacity() == sender.capacity(),
{
    Sender { sender: sender.sender.clone(), id: Ghost(sender.id@), cap: Ghost(sender.cap@) }
}

/// Calls `<flume::Receiver<T> as Clone>::clone`. Claimed: the new handle is
/// on the same channel, so of the same bound (flume's `clone` copies the
/// `Arc` of the shared channel).
#[verifier::external_body]
pub(crate) fn flume_receiver_clone<T>(receiver: &Receiver<T>) -> (res: Receiver<T>)
    ensures
        res.channel_id() == receiver.channel_id(),
        res.capacity() == receiver.capacity(),
{
    Receiver {
        receiver: receiver.receiver.clone(),
        id: Ghost(receiver.id@),
        cap: Ghost(receiver.cap@),
    }
}

} // verus!
