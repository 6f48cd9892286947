use actrice::thread::{posted, ActorThreaded, Adress, Enveloppe, SyncChannelHandler, SyncHandler, Worker};
use actrice::{channel, MailboxClosed, Sender};

/// A pool of threads for the workers of the actors under test.
fn pool() -> tokio::runtime::Runtime {
    tokio::runtime::Runtime::new().unwrap()
}

/// Runs a worker on a thread of the pool until its mailbox closes.
fn spawn_worker<A: ActorThreaded>(pool: &tokio::runtime::Runtime, mut worker: Worker<A>) {
    pool.spawn_blocking(move || while worker.serve_next() {});
}

fn start<A: ActorThreaded>(pool: &tokio::runtime::Runtime, act: A) -> Adress<A> {
    let (adress, worker) = Adress::with_worker(act);
    spawn_worker(pool, worker);
    adress
}

struct Greeter;
impl ActorThreaded for Greeter {}

impl SyncHandler<String, String> for Greeter {
    fn handle(&mut self, msg: String) -> String {
        format!("Hello {msg}")
    }
}

struct Repeat {
    value: String,
    number: usize,
}

struct Repeater;
impl ActorThreaded for Repeater {}

impl SyncChannelHandler<Repeat, String> for Repeater {
    fn handle(&mut self, msg: Repeat, sender: &Sender<String>) {
        for _ in 0..msg.number {
            let _ = sender.send_sync(msg.value.to_owned());
        }
    }
}

struct Echo {
    sender: Sender<String>,
}
impl ActorThreaded for Echo {}

impl SyncHandler<String, ()> for Echo {
    fn handle(&mut self, msg: String) -> () {
        let _ = self.sender.send_sync(format!("Hello {msg}"));
    }
}

#[test]
fn ask_sync() {
    let pool = pool();
    let ctx = start(&pool, Greeter);
    let res: Option<String> = ctx.ask_sync("World".to_owned());

    assert_eq!(Some("Hello World".to_owned()), res)
}

#[test]
fn ask_channel_sync() {
    let pool = pool();
    let ctx = start(&pool, Repeater);
    let number = 10;

    let chan = ctx.ask_channel_sync(Repeat {
        value: "Hello World".to_owned(),
        number: number,
    });
    let mut expected = 0;
    while let Some(_) = chan.recv_sync() {
        expected += 1;
    }
    assert_eq!(number, expected);

    let (send, receiv) = channel(10);
    let _ = ctx.ask_with_sync(
        Repeat {
            value: "Hello World".to_owned(),
            number: number,
        },
        send,
    );
    let mut expected = 0;
    while let Some(_) = receiv.recv_sync() {
        expected += 1;
    }
    assert_eq!(number, expected);
}

#[test]
fn send_sync() {
    let pool = pool();
    let (sender, receiver) = channel(1);
    let greeter = Echo { sender };
    let ctx = start(&pool, greeter);
    let _ = ctx.send_sync("World".to_owned());
    if let Some(res) = receiver.recv_sync() {
        assert_eq!("Hello World", res)
    }
}

#[test]
fn worker_serves_on_the_calling_thread() {
    let (sender, receiver) = channel(1);
    let (adress, mut worker) = Adress::with_worker(Echo { sender });
    assert!(adress.send_sync("Ada".to_owned()).is_ok());
    assert!(worker.serve_next());
    assert_eq!(receiver.recv_sync(), Some("Hello Ada".to_owned()));
}

#[test]
fn worker_stops_when_every_adress_is_gone() {
    let (adress, mut worker) = Adress::with_worker(Greeter);
    let other = adress.clone();
    drop(adress);
    drop(other);
    assert!(!worker.serve_next());
}

#[test]
fn envelopes_left_in_the_mailbox_are_served_after_the_adress_is_gone() {
    let (sender, receiver) = channel(2);
    let (adress, mut worker) = Adress::with_worker(Echo { sender });
    assert!(adress.send_sync("Bob".to_owned()).is_ok());
    drop(adress);
    assert!(worker.serve_next());
    assert!(!worker.serve_next());
    assert_eq!(receiver.recv_sync(), Some("Hello Bob".to_owned()));
}

#[test]
fn ask_after_every_worker_stopped_gets_no_answer() {
    let (adress, worker) = Adress::with_worker(Greeter);
    drop(worker);
    let res: Option<String> = adress.ask_sync("World".to_owned());
    assert_eq!(res, None);
    assert!(adress.send_sync("World".to_owned()).is_err());
    let (repeater, worker) = Adress::with_worker(Repeater);
    drop(worker);
    let (send, receiv) = channel::<String>(1);
    let res = repeater.ask_with_sync(
        Repeat {
            value: "x".to_owned(),
            number: 3,
        },
        send,
    );
    assert!(res.is_err());
    drop(res);
    assert_eq!(receiv.recv_sync(), None);
}

#[test]
fn ask_channel_after_every_worker_stopped_is_closed_and_empty() {
    let (adress, worker) = Adress::with_worker(Repeater);
    drop(worker);
    let chan = adress.ask_channel_sync(Repeat {
        value: "x".to_owned(),
        number: 3,
    });
    assert_eq!(chan.recv_sync(), None);
}

#[test]
fn ask_envelope_answers_on_its_reply_channel() {
    let (envelope, rx) = Enveloppe::<Greeter>::ask::<String, String>("Eve".to_owned());
    let mut greeter = Greeter;
    envelope.handle(&mut greeter);
    assert_eq!(rx.recv_sync(), Some("Hello Eve".to_owned()));
    assert_eq!(rx.recv_sync(), None);
}

#[test]
fn tell_and_stream_envelopes() {
    let (sender, receiver) = channel(1);
    let mut echo = Echo { sender };
    let told = Enveloppe::<Echo>::tell::<String, ()>("Tom".to_owned());
    told.handle(&mut echo);
    assert_eq!(receiver.recv_sync(), Some("Hello Tom".to_owned()));

    let (send, receiv) = channel(5);
    let streamed = Enveloppe::<Repeater>::stream(
        Repeat {
            value: "r".to_owned(),
            number: 4,
        },
        send,
    );
    streamed.handle(&mut Repeater);
    let mut got = Vec::new();
    while let Some(v) = receiv.recv_sync() {
        got.push(v);
    }
    assert_eq!(got, vec!["r".to_owned(); 4]);
}

#[derive(Clone)]
struct Counter {
    seen: usize,
}
impl ActorThreaded for Counter {}

impl SyncHandler<usize, usize> for Counter {
    fn handle(&mut self, msg: usize) -> usize {
        self.seen += msg;
        self.seen
    }
}

#[test]
fn with_workers_gives_each_worker_a_clone_and_a_shared_mailbox() {
    let (adress, mut workers) = Adress::with_workers(Counter { seen: 7 }, 3);
    assert_eq!(workers.len(), 3);
    for w in workers.iter() {
        assert_eq!(w.actor.seen, 7);
    }
    assert!(adress.send_sync(1usize).is_ok());
    assert!(adress.send_sync(2usize).is_ok());
    assert!(workers[2].serve_next());
    assert!(workers[0].serve_next());
    assert_eq!(workers[2].actor.seen, 8);
    assert_eq!(workers[0].actor.seen, 9);
    assert_eq!(workers[1].actor.seen, 7);
}

#[test]
fn asks_spread_over_many_workers() {
    let pool = pool();
    let num_threads = 4;
    let (adress, workers) = Adress::with_workers(Counter { seen: 0 }, num_threads);
    for worker in workers {
        spawn_worker(&pool, worker);
    }
    let mut answers = Vec::new();
    for _ in 0..num_threads {
        let res: Option<usize> = adress.ask_sync(1usize);
        answers.push(res);
    }
    assert!(answers.iter().all(|a| a.is_some()));
}

#[test]
fn running_sum_over_many_asks() {
    let pool = pool();
    let ctx = start(&pool, Counter { seen: 0 });
    let mut res = 0;
    for i in 0..100usize {
        res += ctx.ask_sync(i).unwrap();
    }
    assert_eq!(res, (0..100usize).map(|i| i * (i + 1) / 2).sum::<usize>());
}

#[test]
fn posted_tells_a_taken_envelope_from_a_refused_one() {
    assert_eq!(posted::<Greeter>(Ok(())), Ok(()));
    let refused = Enveloppe::<Greeter>::tell::<String, String>("x".to_owned());
    assert_eq!(posted(Err(refused)), Err(MailboxClosed));
}

#[test]
fn ask_sync_answers_from_inside_a_runtime() {
    let pool = pool();
    let ctx = start(&pool, Greeter);
    let res = pool.block_on(async { ctx.ask_sync::<String, String>("Rt".to_owned()) });
    assert_eq!(res, Some("Hello Rt".to_owned()));
}

#[test]
fn refused_envelopes_come_back_unopened() {
    let (first, _unused) = channel(1);
    let (adress, worker) = Adress::with_worker(Echo { sender: first });
    drop(worker);
    let back = adress.send_sync("Zed".to_owned()).unwrap_err();
    let (sender, receiver) = channel(1);
    let mut echo = Echo { sender };
    back.handle(&mut echo);
    assert_eq!(receiver.recv_sync(), Some("Hello Zed".to_owned()));
}

#[derive(Clone)]
struct Meeting {
    barrier: std::sync::Arc<std::sync::Barrier>,
}
impl ActorThreaded for Meeting {}

impl SyncChannelHandler<String, ()> for Meeting {
    fn handle(&mut self, _: String, sender: &Sender<()>) {
        self.barrier.wait();
        let _ = sender.send_sync(());
    }
}

#[test]
fn workers_run_at_the_same_time() {
    let pool = pool();
    let num_threads = 4;
    let meeting = Meeting { barrier: std::sync::Arc::new(std::sync::Barrier::new(num_threads)) };
    let (adress, workers) = Adress::with_workers(meeting, num_threads);
    for worker in workers {
        spawn_worker(&pool, worker);
    }
    let (send, receiv) = channel(10);
    for _ in 0..num_threads {
        assert!(adress.ask_with_sync("Hello World".to_owned(), send.clone()).is_ok());
    }
    drop(send);
    let mut expected = 0;
    while let Some(_) = receiv.recv_sync() {
        expected += 1;
    }
    assert_eq!(num_threads, expected);
}
