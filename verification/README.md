# nockchain_pool

A mining pool for Nockchain: a pool server that embeds a node, hands work orders
to miners over gRPC and checks the nonces they send back, and a miner client that
subscribes to the pool and searches nonces.

The decisions of both programs live in the library under `src/`, written in Verus
and proved against their contracts:

- `pow`: the block header a nonce is checked on, its BLAKE3 hash, how a hash is
  compared with a difficulty target (the same test for miner and pool), and the
  miner's nonce counter.
- `work`: work orders and results, their validation against the current order,
  and when an order is out of date.
- `error`: the pool's error type, its log text, severity, recoverability, gRPC
  code, and the classification of foreign error messages.
- `network`: retry schedules with timeouts and back-off, a primary operation with
  a fallback, the network height read from the block explorer's page, and
  connectivity verdicts.
- `chain`: the nouns the pool peeks and pokes, reading the heaviest block and a
  block's page, the genesis check, and the initial synchronisation.
- `client`: the miner's connection, subscription, stream and submission steps.
- `api`: what the HTTP status API computes.
- `text`: substring search, decimal and hexadecimal conversions.

Calls into the node, the network, timers and gRPC are made by the programs under
`app/`, which hand the outcomes to the library's step functions and carry out the
steps they return.
