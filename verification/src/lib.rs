//! Request handling of the Dragon node's gRPC service: the checks that a
//! request passes before it reaches the RAM-Lake store or the model manager,
//! the calls it asks those backends for, and the responses (or the status
//! errors) that their answers become.
//!
//! The backends themselves and the transport live outside this library; each
//! remote procedure is split into a step that turns a request into a backend
//! call (or an early error) and a step that turns the backend's answer into a
//! response.

pub mod status;
pub mod uuid_text;
pub mod messages;
pub mod service;
pub mod ram_lake_rpc;
pub mod model_rpc;
pub mod laws;
pub mod ram_lake_laws;
pub mod model_laws;
