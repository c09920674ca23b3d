//! A durable write-behind persistence core: a batching flush controller in
//! front of a transactional storage backend, together with a service-health
//! state served over a minimal line-based status protocol.

pub mod clock;
pub mod engine;
pub mod http;
pub mod kernel;
pub mod memory;
pub mod observability;
pub mod router;
pub mod sqlite;
pub mod storage;
pub mod text;
pub mod transport;
