//! Native-bridge subsystem of a managed-host client: value translation
//! between decoded protocol replies and host-runtime object graphs, a
//! leak/reclaim discipline for opaque integer handles, panic and error
//! containment at every boundary entry point, and the one-shot listener
//! handshake.

pub mod argbuf;
pub mod constants;
pub mod contain;
pub mod errors;
pub mod handshake;
pub mod host;
pub mod level;
pub mod registry;
pub mod reply;
pub mod stats;
pub mod telemetry;
pub mod text;
pub mod translate;
