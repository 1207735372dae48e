//! HTTP/3 transport for gRPC and HTTP services: the decisions that drive
//! connection reuse and reconnection, request and response body streaming,
//! stream reset on interruption, error classification, and the command-line
//! interface, load generation and latency
//! recording of the echo benchmark.
pub mod text;
pub mod cli;
pub mod gm_quic_server;
pub mod test_util;
pub mod request_sender;
pub mod cache_state;
pub mod body;
pub mod classify;
pub mod connect;
pub mod serve;
pub mod load;
pub mod metrics;
