# tonic_h3

HTTP/3 transport for gRPC (tonic) and HTTP (axum) services over QUIC.

The crate is split in two:

* `src/` is a library verified with Verus. It holds the decisions of the
  transport, each with a contract and the laws that relate them:
  connection reuse and reconnection of the client (`request_sender`,
  `cache_state`), address failover (`connect`), body streaming and stream
  reset codes (`body`), error classification (`classify`), the server loops
  (`serve`), the gm-quic acceptor (`gm_quic_server`), test set-up
  (`test_util`), and the echo benchmark's command line, payload and latency
  recording (`cli`, `load`, `metrics`). Calls into outside crates (h3,
  quinn, rustls, gm-quic, hdrhistogram) go through small trusted wrappers
  whose contracts are documented where they stand.
* `app/` is the runtime around it: the QUIC backends, the tower services,
  the async body streaming and server loops, and the floating-point benchmark
  summary. It performs the I/O and the awaits, and asks the library what to
  do next.

`tests/` exercises the library on concrete values.

QUIC backends: quinn and gm-quic. The s2n-quic, msquic and quiche backends
are not included (their crates are not among this crate's dependencies); the
transport's decisions do not depend on the backend, so adding one is a
matter of a connector and an acceptor in `app/`.
