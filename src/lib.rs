//! Decoding of the racing-simulation UDP telemetry protocol, and the
//! distribution and persistence policies that sit behind the decoder.
//!
//! - [`wire`], [`text`]: the little-endian and fixed-width text readers.
//! - [`packets`]: one decoder per packet kind, each refusing short input.
//! - [`dispatch`]: a whole datagram, header first, to a typed packet.
//! - [`events`]: the tagged events that leave the library.
//! - [`ingest`]: where a decoded datagram goes.
//! - [`hub`]: the lossy, bounded broadcast to independent subscribers.
//! - [`persistence`]: the buffer that is flushed in batches.
//! - [`api`]: the service's configuration and its event history.

pub mod api;
pub mod dispatch;
pub mod error;
pub mod events;
pub mod hub;
pub mod ingest;
pub mod packets;
pub mod persistence;
pub mod text;
pub mod wire;
