# zingo-netutils

A client library for Zcash chain indexers (`lightwalletd` / `zainod`), with its
decision logic verified by Verus.

## Layout

- `src/` — the verified library:
  - `indexer.rs`: `ServerUri` (a URI parsed by `http`, with the parts the client
    reads) and `GrpcIndexer`, whose constructor accepts only `http`/`https` URIs
    with an authority and pre-builds the tonic endpoint (with TLS for `https`).
  - `send.rs`: what a server's reply to a submitted transaction means — the
    transaction ID (without surrounding quotes) or a `SendRejected` error.
  - `calls.rs`: which RPCs carry the default deadline.
  - `error.rs`, `error/transparent.rs`: one error enum per RPC, with conversions
    and messages.
  - `protocol.rs`: network types and upgrade activation heights.
- `tests/` — tests of the library.
- `app/` — the async `Indexer` and `TransparentIndexer` traits and their gRPC
  implementation over tonic, and error types with `std::error::Error`.
