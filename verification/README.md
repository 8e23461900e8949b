# ssb_client

A client library for secure scuttlebutt, verified with Verus.

- `src/` holds the client's decisions, each with its contract:
  - `keys.rs`: the parameters of the secret handshake of `easy_ssb` (keys from
    the keyfile, fresh ephemeral keys, the main ssb network, the local server);
  - `handshake.rs`: the client's result for each outcome of the handshake;
  - `receive.rs`: how the `Receive` future reacts to the stream of incoming
    rpcs, with the laws of a poll of it.
- `app/` holds the futures and connection plumbing (muxrpc, secret-stream,
  keyfile io) that drives those decisions.
- `tests/` exercises the library on concrete values.
