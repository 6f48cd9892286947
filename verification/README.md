# actrice

Actors and bounded channels.

- `src/` is the verified library (Verus).
  - `lib.rs`: `channel`, `Sender`, `Receiver` over `flume`; a handle is
    modelled by the channel it is on (`channel_id`) and that channel's bound.
  - `flume_calls.rs`: the calls into `flume`, with what is taken for granted
    of each.
  - `reply.rs`: the answer channel (a channel of bound one), `deliver`,
    which hands a handler's answer to the asker, and `asked`, what an asker
    gets.
  - `thread.rs`: threaded actors. An `Adress` posts sealed `Enveloppe`s into
    the actor's mailbox; a `Worker` opens them one at a time on its copy of
    the actor. Address and workers are on one mailbox channel, and an
    envelope's reply channel is the one its asker holds. An envelope is
    opened at most once: it is sealed by a type invariant and opening
    consumes it. Handlers name their effect (`SyncHandler::handled`), and
    opening an envelope takes the actor through that effect on the
    envelope's own message.
- `app/` holds what awaits or starts threads: the tokio-served actors
  (`asynch`), the awaiting channel calls, and starting the workers of a
  threaded actor on threads of their own.
- `tests/` runs the library with the real `flume` and `tokio`.
