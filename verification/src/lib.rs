//! A stateless bridge that answers "which station is near this coordinate?".
//!
//! Each incoming HTTP query is validated, translated into a single
//! nearest-station RPC against an upstream directory service, and the first
//! result is rendered as plain text.  The crate verifies the
//! transport-bridging logic: query validation, response rendering,
//! configuration resolution, the cleartext HTTP/2 upgrade state machine,
//! gRPC message framing, and the wire encoding of the upstream request.

pub mod config;
pub mod frame;
pub mod h2c;
pub mod handler;
pub mod proto;
pub mod render;
pub mod station;
pub mod text;
