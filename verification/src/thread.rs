//! Actors served by threads of their own.
//!
//! An [`Adress`] puts [`Enveloppe`]s into the mailbox of an actor; each
//! [`Worker`] of the actor takes them out one at a time and opens them on its
//! own copy of the actor, which runs the handler that the envelope was made
//! for. The threads that run the workers are started outside this crate's
//! verified part.
use vstd::prelude::*;

use crate::reply::{asked, deliver, reply_channel};
use crate::{channel, MailboxClosed, Receiver, Sender};

verus! {

/// An actor whose handlers run on threads of its own.
pub trait ActorThreaded: Sized + Send + 'static {}

/// A handler that answers a message of type `M` with a value of type `R`.
pub trait SyncHandler<M, R>: Sized where R: Send + 'static {
    /// What handling does: the actor `before`, handling `msg`, becomes
    /// `after` and answers `answer`. An implementation that says nothing of
    /// its effect leaves it at `true`.
    open spec fn handled(before: Self, msg: M, after: Self, answer: R) -> bool {
        true
    }

    fn handle(&mut self, msg: M) -> (answer: R)
        ensures
            Self::handled(*old(self), msg, *final(self), answer),
    ;
}

/// A handler that answers a message of type `M` with any number of values of
/// type `R`, sent on `sender`.
pub trait SyncChannelHandler<M, R>: Sized {
    /// What handling does: the actor `before`, handling `msg` with `sender`
    /// for its answers, becomes `after`. An implementation that says nothing
    /// of its effect leaves it at `true`.
    open spec fn handled(before: Self, msg: M, sender: Sender<R>, after: Self) -> bool {
        true
    }

    fn handle(&mut self, msg: M, sender: &Sender<R>)
        ensures
            Self::handled(*old(self), msg, *sender, *final(self)),
    ;
}

/// How the handler's answer to an envelope travels back.
#[derive(PartialEq, Eq, Structural, Clone, Copy, Debug)]
pub enum Answer {
    /// Nobody waits for the answer: it is dropped.
    Dropped,
    /// The answer goes back to the asker on a reply channel.
    OneShot,
    /// The handler sends its answers on a channel of the asker.
    Stream,
}

/// What lies inside an envelope: a message for one handler of the actor.
trait EnveloppeProxy<A>: Send {
    /// The message is still inside.
    spec fn pending(&self) -> bool;

    /// How the answer travels back.
    spec fn answer(&self) -> Answer;

    /// The channel the answer travels back on, when it does.
    spec fn reply_channel(&self) -> int;

    /// Opening the envelope takes the actor from `before` to `after`: its
    /// handler ran on the message inside.
    spec fn opens_to(&self, before: A, after: A) -> bool;

    /// Runs the handler on the message; the message is gone afterwards.
    fn handle(&mut self, act: &mut A)
        requires
            old(self).pending(),
        ensures
            !final(self).pending(),
            old(self).opens_to(*old(act), *final(act)),
    ;
}

/// A message for a `SyncHandler`, with the reply channel on which the asker
/// waits, if any.
#[verifier::reject_recursive_types(R)]
struct SyncEnveloppeProxy<M, R> where M: Send + 'static, R: Send + 'static {
    msg: Option<M>,
    sender: Option<Sender<R>>,
}

impl<A, M, R> EnveloppeProxy<A> for SyncEnveloppeProxy<M, R> where
    M: Send + 'static,
    R: Send + 'static,
    A: ActorThreaded + SyncHandler<M, R> + Send + 'static,
 {
    closed spec fn pending(&self) -> bool {
        self.msg is Some
    }

    closed spec fn answer(&self) -> Answer {
        if self.sender is Some {
            Answer::OneShot
        } else {
            Answer::Dropped
        }
    }

    closed spec fn reply_channel(&self) -> int {
        match self.sender {
            Some(sender) => sender.channel_id(),
            None => 0,
        }
    }

    closed spec fn opens_to(&self, before: A, after: A) -> bool {
        &&& self.msg matches Some(msg)
        &&& exists|answer: R| #[trigger] A::handled(before, msg, after, answer)
    }

    fn handle(&mut self, act: &mut A) {
        let msg = self.msg.take().unwrap();
        let result = act.handle(msg);
        let reply = self.sender.take();
        let _ = deliver(reply, result);
    }
}

/// Opening an envelope for a `SyncHandler` that holds `msg` is a run of the
/// handler on `msg`, whatever it answers.
proof fn lemma_sync_proxy_opens_to<A, M, R>(proxy: &SyncEnveloppeProxy<M, R>, msg: M) where
    M: Send + 'static,
    R: Send + 'static,
    A: ActorThreaded + SyncHandler<M, R> + Send + 'static,

    requires
        proxy.msg == Some(msg),
    ensures
        forall|before: A, after: A|
            #[trigger] EnveloppeProxy::<A>::opens_to(proxy, before, after) <==> exists|answer: R|
                #[trigger] A::handled(before, msg, after, answer),
{
    assert forall|before: A, after: A|
        #[trigger] EnveloppeProxy::<A>::opens_to(proxy, before, after) <==> exists|answer: R|
            #[trigger] A::handled(before, msg, after, answer) by {
        if exists|answer: R| #[trigger] A::handled(before, msg, after, answer) {
            let answer = choose|answer: R| #[trigger] A::handled(before, msg, after, answer);
            assert(A::handled(before, proxy.msg->0, after, answer));
        }
    }
}

/// A message for a `SyncChannelHandler`, with the channel on which the
/// handler sends its answers.
#[verifier::reject_recursive_types(R)]
struct SyncChannelEnveloppeProxy<M, R> where M: Send + 'static, R: Send + 'static {
    msg: Option<M>,
    sender: Sender<R>,
}

impl<A, M, R> EnveloppeProxy<A> for SyncChannelEnveloppeProxy<M, R> where
    M: Send + 'static,
    R: Send + 'static,
    A: ActorThreaded + SyncChannelHandler<M, R> + Send + 'static,
 {
    closed spec fn pending(&self) -> bool {
        self.msg is Some
    }

    closed spec fn answer(&self) -> Answer {
        Answer::Stream
    }

    closed spec fn reply_channel(&self) -> int {
        self.sender.channel_id()
    }

    closed spec fn opens_to(&self, before: A, after: A) -> bool {
        &&& self.msg matches Some(msg)
        &&& A::handled(before, msg, self.sender, after)
    }

    fn handle(&mut self, act: &mut A) {
        let msg = self.msg.take().unwrap();
        act.handle(msg, &self.sender);
    }
}

/// A sealed message for an actor of type `A`: it holds its message until
/// [`Enveloppe::handle`] opens it, once, consuming it.
#[verifier::reject_recursive_types(A)]
pub struct Enveloppe<A> {
    proxy: Box<dyn EnveloppeProxy<A>>,
    answer: Ghost<Answer>,
    reply: Ghost<int>,
}

impl<A> Enveloppe<A> {
    #[verifier::type_invariant]
    spec fn sealed(self) -> bool {
        &&& self.proxy.pending()
        &&& self.proxy.answer() == self.answer@
        &&& self.proxy.reply_channel() == self.reply@
    }

    /// How the handler's answer travels back.
    pub closed spec fn answer(&self) -> Answer {
        self.answer@
    }

    /// The channel on which the answer travels back, unless it is dropped.
    pub closed spec fn reply_channel(&self) -> int {
        self.reply@
    }

    /// Opening the envelope takes the actor from `before` to `after`: the
    /// handler it was made for ran on the message inside.
    pub closed spec fn opens_to(&self, before: A, after: A) -> bool {
        self.proxy.opens_to(before, after)
    }

    /// Opens the envelope on `act`: the handler it was made for runs on the
    /// message inside, which leaves the envelope there and then; the envelope
    /// is consumed, so it is opened once only.
    pub fn handle(self, act: &mut A)
        ensures
            self.opens_to(*old(act), *final(act)),
    {
        proof {
            use_type_invariant(&self);
        }
        let mut proxy = self.proxy;
        proxy.handle(act);
    }

    /// A message for `act.handle(msg)` whose answer goes back to the asker,
    /// who waits on the receiving end returned beside it: the envelope holds
    /// the only sending end of that reply channel.
    pub fn ask<M, R>(msg: M) -> (res: (Enveloppe<A>, Receiver<R>)) where
        M: Send + 'static,
        R: Send + 'static,
        A: ActorThreaded + SyncHandler<M, R> + Send + 'static,

        ensures
            res.0.answer() == Answer::OneShot,
            res.0.reply_channel() == res.1.channel_id(),
            res.1.capacity() == 1,
            forall|before: A, after: A|
                #[trigger] res.0.opens_to(before, after) <==> exists|answer: R|
                    #[trigger] A::handled(before, msg, after, answer),
    {
        let (tx, rx) = reply_channel();
        let ghost id = tx.channel_id();
        let proxy = SyncEnveloppeProxy::<M, R> { msg: Some(msg), sender: Some(tx) };
        proof {
            lemma_sync_proxy_opens_to::<A, M, R>(&proxy, msg);
        }
        let envelope = Enveloppe { proxy: Box::new(proxy), answer: Ghost(Answer::OneShot), reply: Ghost(id) };
        (envelope, rx)
    }

    /// A message for `act.handle(msg)` whose answer is dropped.
    pub fn tell<M, R>(msg: M) -> (res: Enveloppe<A>) where
        M: Send + 'static,
        R: Send + 'static,
        A: ActorThreaded + SyncHandler<M, R> + Send + 'static,

        ensures
            res.answer() == Answer::Dropped,
            forall|before: A, after: A|
                #[trigger] res.opens_to(before, after) <==> exists|answer: R|
                    #[trigger] A::handled(before, msg, after, answer),
    {
        let proxy = SyncEnveloppeProxy::<M, R> { msg: Some(msg), sender: None };
        proof {
            lemma_sync_proxy_opens_to::<A, M, R>(&proxy, msg);
        }
        Enveloppe { proxy: Box::new(proxy), answer: Ghost(Answer::Dropped), reply: Ghost(0) }
    }

    /// A message for `act.handle(msg, &sender)`, which sends its answers on
    /// `sender`: the envelope holds that very sender.
    pub fn stream<M, R>(msg: M, sender: Sender<R>) -> (res: Enveloppe<A>) where
        M: Send + 'static,
        R: Send + 'static,
        A: ActorThreaded + SyncChannelHandler<M, R> + Send + 'static,

        ensures
            res.answer() == Answer::Stream,
            res.reply_channel() == sender.channel_id(),
            forall|before: A, after: A|
                #[trigger] res.opens_to(before, after) <==> A::handled(before, msg, sender, after),
    {
        let ghost id = sender.channel_id();
        let proxy = SyncChannelEnveloppeProxy::<M, R> { msg: Some(msg), sender };
        Enveloppe { proxy: Box::new(proxy), answer: Ghost(Answer::Stream), reply: Ghost(id) }
    }

    /// A message for `act.handle(msg, &sender)` where `sender` is the only
    /// sending end of a new channel of bound one, whose receiving end is
    /// returned beside the envelope.
    pub fn ask_stream<M, R>(msg: M) -> (res: (Enveloppe<A>, Receiver<R>)) where
        M: Send + 'static,
        R: Send + 'static,
        A: ActorThreaded + SyncChannelHandler<M, R> + Send + 'static,

        ensures
            res.0.answer() == Answer::Stream,
            res.0.reply_channel() == res.1.channel_id(),
            res.1.capacity() == 1,
            exists|sender: Sender<R>|
                {
                    &&& sender.channel_id() == res.1.channel_id()
                    &&& forall|before: A, after: A|
                        #[trigger] res.0.opens_to(before, after) <==> A::handled(
                            before,
                            msg,
                            sender,
                            after,
                        )
                },
    {
        let (send, receiv) = channel::<R>(1);
        let ghost sender = send;
        let envelope = Enveloppe::stream::<M, R>(msg, send);
        assert(sender.channel_id() == receiv.channel_id());
        (envelope, receiv)
    }
}

/// One copy of an actor and its share of the actor's mailbox.
#[verifier::reject_recursive_types(A)]
pub struct Worker<A> where A: ActorThreaded + Send + 'static {
    pub actor: A,
    pub mailbox: Receiver<Enveloppe<A>>,
}

impl<A: ActorThreaded + Send + 'static> Worker<A> {
    /// Waits for the next envelope of the mailbox and opens it on the actor.
    ///
    /// Returns `false`, having done nothing, once the mailbox is closed
    /// (every `Adress` of the actor is gone) and empty.
    pub fn serve_next(&mut self) -> (served: bool)
        ensures
            final(self).mailbox == old(self).mailbox,
            !served ==> final(self).actor == old(self).actor,
    {
        let got = self.mailbox.recv_sync();
        self.serve(got)
    }

    /// Serves what the mailbox handed over: opens the envelope on the actor
    /// when there is one, and reports whether there was.
    pub fn serve(&mut self, got: Option<Enveloppe<A>>) -> (served: bool)
        ensures
            served == got is Some,
            final(self).mailbox == old(self).mailbox,
            got is None ==> final(self).actor == old(self).actor,
            got matches Some(envelope) ==> envelope.opens_to(old(self).actor, final(self).actor),
    {
        match got {
            Some(envelope) => {
                envelope.handle(&mut self.actor);
                true
            },
            None => false,
        }
    }
}

/// What posting an envelope came to, from what the mailbox answered: the
/// mailbox either took the envelope or, closed, handed it back.
pub fn posted<A>(sent: Result<(), Enveloppe<A>>) -> (res: Result<(), MailboxClosed>)
    ensures
        res is Ok <==> sent is Ok,
{
    match sent {
        Ok(()) => Ok(()),
        Err(_) => Err(MailboxClosed),
    }
}

/// Where the messages of an actor go.
#[verifier::reject_recursive_types(A)]
pub struct Adress<A> where A: ActorThreaded + Send + 'static {
    sender: Sender<Enveloppe<A>>,
}

impl<A: ActorThreaded + Send + 'static> Clone for Adress<A> {
    /// Another address of the same actor.
    fn clone(&self) -> (res: Self)
        ensures
            res.channel_id() == self.channel_id(),
            res.capacity() == self.capacity(),
    {
        Adress { sender: self.sender.clone() }
    }
}

impl<A: ActorThreaded + Send + 'static> Adress<A> {
    /// The mailbox that this address puts envelopes into.
    pub closed spec fn channel_id(&self) -> int {
        self.sender.channel_id()
    }

    /// How many envelopes the mailbox holds before a sender waits.
    pub closed spec fn capacity(&self) -> nat {
        self.sender.capacity()
    }

    /// The sending end of the mailbox, for the callers that await on it.
    pub fn mailbox(&self) -> (s: &Sender<Enveloppe<A>>)
        ensures
            s.channel_id() == self.channel_id(),
            s.capacity() == self.capacity(),
    {
        &self.sender
    }

    /// The address of `act` and the one worker that serves it, on a mailbox
    /// of one envelope.
    pub fn with_worker(act: A) -> (res: (Adress<A>, Worker<A>))
        ensures
            res.1.mailbox.channel_id() == res.0.channel_id(),
            res.0.capacity() == 1,
            res.1.mailbox.capacity() == 1,
            res.1.actor == act,
    {
        let (sender, mailbox) = channel::<Enveloppe<A>>(1);
        (Adress { sender }, Worker { actor: act, mailbox })
    }

    /// The address of `act` and `num_threads` workers that share its
    /// mailbox, each with a clone of `act`; the mailbox holds `num_threads`
    /// envelopes.
    pub fn with_workers(act: A, num_threads: usize) -> (res: (Adress<A>, Vec<Worker<A>>)) where
        A: Clone,

        ensures
            res.0.capacity() == num_threads,
            res.1.len() == num_threads,
            forall|i: int|
                #![trigger res.1[i]]
                0 <= i < num_threads ==> {
                    &&& cloned(act, res.1[i].actor)
                    &&& res.1[i].mailbox.channel_id() == res.0.channel_id()
                    &&& res.1[i].mailbox.capacity() == num_threads
                },
    {
        let (sender, mailbox) = channel::<Enveloppe<A>>(num_threads);
        let mut workers: Vec<Worker<A>> = Vec::new();
        for i in 0..num_threads
            invariant
                mailbox.channel_id() == sender.channel_id(),
                mailbox.capacity() == num_threads,
                workers.len() == i,
                forall|j: int|
                    #![trigger workers[j]]
                    0 <= j < i ==> {
                        &&& cloned(act, workers[j].actor)
                        &&& workers[j].mailbox.channel_id() == sender.channel_id()
                        &&& workers[j].mailbox.capacity() == num_threads
                    },
        {
            let share = mailbox.clone();
            let actor = act.clone();
            workers.push(Worker { actor, mailbox: share });
        }
        (Adress { sender }, workers)
    }

    /// Asks the actor: `act.handle(msg)` runs on a worker, and this waits for
    /// its answer on the reply channel whose sending end went into the
    /// envelope.
    ///
    /// Never panics: it returns `None` when no answer comes, because the
    /// mailbox is closed or the worker dropped the question unanswered (its
    /// handler panicked, say). The wait is on a flume channel, so it may be
    /// called from inside an asynchronous runtime too.
    pub fn ask_sync<M, R>(&self, msg: M) -> (res: Option<R>) where
        M: Send + 'static,
        R: Send + 'static,
        A: SyncHandler<M, R>,
    {
        let (envelope, reply) = Enveloppe::<A>::ask::<M, R>(msg);
        let sent = posted(self.sender.send_sync(envelope));
        let got = reply.recv_sync();
        asked(sent, got)
    }

    /// Asks the actor for a stream of answers: `act.handle(msg, &sender)`
    /// runs on a worker, with the sending end of the channel whose receiving
    /// end is returned. The channel holds one answer at a time. When the
    /// mailbox is closed, the returned channel is closed and empty.
    pub fn ask_channel_sync<M, R>(&self, msg: M) -> (res: Receiver<R>) where
        M: Send + 'static,
        R: Send + 'static,
        A: SyncChannelHandler<M, R>,

        ensures
            res.capacity() == 1,
    {
        let (envelope, receiv) = Enveloppe::<A>::ask_stream::<M, R>(msg);
        let _ = self.sender.send_sync(envelope);
        receiv
    }

    /// Asks the actor for a stream of answers on a channel of the caller:
    /// `act.handle(msg, &sender)` runs on a worker.
    ///
    /// Never panics: when the mailbox is closed (every worker has stopped),
    /// the envelope comes back unopened, still holding `sender`.
    pub fn ask_with_sync<M, R>(&self, msg: M, sender: Sender<R>) -> (res: Result<(), Enveloppe<A>>) where
        M: Send + 'static,
        R: Send + 'static,
        A: SyncChannelHandler<M, R>,

        ensures
            res matches Err(back) ==> {
                &&& back.answer() == Answer::Stream
                &&& back.reply_channel() == sender.channel_id()
            },
    {
        let envelope = Enveloppe::<A>::stream::<M, R>(msg, sender);
        self.sender.send_sync(envelope)
    }

    /// Tells the actor: `act.handle(msg)` runs on a worker, and its answer is
    /// dropped. This waits only for room in the mailbox.
    ///
    /// Never panics: when the mailbox is closed (every worker has stopped),
    /// the envelope comes back unopened.
    pub fn send_sync<M, R>(&self, msg: M) -> (res: Result<(), Enveloppe<A>>) where
        M: Send + 'static,
        R: Send + 'static,
        A: SyncHandler<M, R>,

        ensures
            res matches Err(back) ==> back.answer() == Answer::Dropped,
    {
        let envelope = Enveloppe::<A>::tell::<M, R>(msg);
        self.sender.send_sync(envelope)
    }
}

} // verus!
