# channel_subscriber

The Subscriber of a channel, verified with Verus.

A Subscriber binds to a channel through the Author's announcement, prepares the
messages that it sends (keyloads, tagged packets, subscriptions, unsubscriptions)
and handles those that it receives (announcements, changes of key, keyloads, signed
and tagged packets).

- `src/subscriber.rs`: the Subscriber and its operations.
- `src/state.rs`: what a Subscriber holds, over which its operations are specified.
- `src/model.rs`: the terms in which the operations are specified: when a message
  is refused, and how the Subscriber changes otherwise.
- `src/steps.rs`: the steps that operations consist of, and what is reached by them.
- `src/laws.rs`: what holds across operations.
- `src/key_ring.rs`: what the message layer sees of the Subscriber's keys.
- `src/message/`, `src/link.rs`, `src/keys.rs`, `src/tbits.rs`, `src/error.rs`,
  `src/draws.rs`: messages
  and their contents, links and what a user supplies to derive and store them, keys,
  trinary strings, errors, random values.
- `app/`: the serialized form of a Subscriber, its errors as `failure::Error`, and a
  session that runs it over a message layer.

The sponge, the signatures and the key encapsulation are the message layer's. An
operation that needs them takes a function, and its contract states what that
function is given and what becomes of its answer. The message layer answers with
bodies, contents and sponge states; the links are the library's to keep.
