//! Client-side correlation and node-probing layer of a mixnet overlay client.
//!
//! The library reconciles fire-and-forget anonymous delivery with
//! request/response semantics: it correlates in-flight requests with the
//! replies that later surface on a shared reconstructed-message stream,
//! frames multiplexed stream data into a binary wire envelope, and builds
//! constrained topologies plus tagged payloads for probing single relay
//! nodes. Around it live the name-service address types, the service
//! directory filters and the timestamped value cache of the wider client.

pub mod cache;
pub mod codec;
pub mod correlator;
pub mod demux;
pub mod directory;
pub mod engine;
pub mod names;
pub mod prober;
pub mod text;
pub mod validator;
