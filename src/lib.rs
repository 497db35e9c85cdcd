//! Client-side protocol engine for a push-based market-data feed: request and
//! response envelopes, the connect / authenticate / subscribe handshake, and the
//! decisions of the ingestion stage that follows it.
pub mod wire;
pub mod models;
pub mod session;
pub mod ingest;
