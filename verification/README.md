# Carbon datasources

Two datasources of Solana updates: a Yellowstone gRPC stream of live accounts,
transactions and blocks, and the Jetstreamer firehose of historical transactions and
blocks.

- `src/` is the library, verified with Verus: conversion of stream messages, delivery
  rules, the state machine of a stream and its reconnections, arrival timing, metric
  labels, client settings, the bounded buffer of transactions that wait for their block.
- `tests/` runs the library on concrete values.
- `app/` does the input and output: connections, channels, clocks, environment, metrics.

## What the library promises

- A transaction becomes V1, V0 or legacy by its parts alone. A V1 transaction is accepted
  only if it meets the rules of V1 messages, fits 4096 bytes on the wire, brings no address
  table lookups and has the signatures that its header asks for.
- A malformed account or transaction never ends a stream. A rejection is counted under a
  version and a reason from closed sets.
- No update is lost in silence: a full or closed output ends the stream generation, except
  for a closed output after cancellation.
- A gap in a stream is told once, with the time and the slot of the first loss.
- A slot counts as delivered only once all of its message was taken.
- Labels are at most 96 chars long, never empty, and hold only ASCII letters, digits and
  `-_.:`.
- The buffer of waiting transactions never exceeds its limit, keeps their order, and gives
  each the time and the hash of its own block.
- A lost update is counted under the labels of its subscription, its kind and the state of
  the channel.

## Choices

- Every slot that the source tells of is its last slot. It makes slot progress only with a
  slot higher than all before.
- Addresses and (thread, slot) pairs are kept in scanned vectors with proved invariants: the
  hash collections of the standard library are specified for integer keys only.
- `solana-short-vec` is named in `Cargo.toml` to hold it at 3.2.2, the release that
  `solana-message` 4.4.0 builds with; no code names it.
- The connection to a Yellowstone endpoint is set up in `app/`, since its TLS step reads the
  certificates of the machine. What it is set up with is decided in the library.

Outside crates are reached through trusted items, each with a doc comment that names the
outside function and says what is taken for granted.
