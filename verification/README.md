# dnet

A messaging abstraction: transports that send and receive messages, wrappers that number,
filter, map, merge and split them, pipes between transports, remote procedure calls on top
of them, and the decisions of the procedural macros that generate RPC code.

Layout:

- `src/` is the verified library. It holds the data structures and decisions:
  the transport wrappers' state (`number`, `latest`, `split`, `wrappers`, `void`, `wall`),
  the pipe loop (`pipe`), the consumer and producer bookkeeping and loops (`rpc`), the
  web-worker transport's queue and message classification (`js`), logging records
  (`logging`), and the macros' checks and plans (`macros`). Public functions state their
  results in their contracts, except where a result rests only on an opaque outside value
  (the request-id counter); laws spanning several calls are public proof functions.
- `app/` is ordinary Rust around the library: the async runtime that performs the actions
  the library's state machines return, codecs, `tracing` output, and the conversion of `syn`
  items into the library's models.
- `tests/` runs the library on concrete values.
