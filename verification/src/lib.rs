//! Bridge between a mesh-style remote-call surface and a single-consumer
//! processing loop: request correlation, operation dispatch, connection
//! liveness, and generic wrappers for remote operations.

pub mod channel;
pub mod correlator;
pub mod edge_service;
pub mod json;
pub mod memory;
pub mod messages;
pub mod peer_tool;
pub mod runtime;
pub mod schema;
pub mod service_tool;
pub mod text;
pub mod tool_provider;
pub mod watchdog;
