//! The decision logic of the outbound side of a service-mesh proxy.
//!
//! Everything here is synchronous and works on plain values: clocks, sockets and tasks live with
//! the caller, which hands in what it observed and carries out what it is told to do.

pub mod addr;
pub mod breaker;
pub mod classify;
pub mod client_policy;
pub mod detect;
pub mod discover;
pub mod endpoint;
pub mod errors;
pub mod headers;
pub mod ingress;
pub mod labels;
pub mod logical;
pub mod numbers;
pub mod proxy_error;
pub mod require_id_header;
pub mod rescue;
pub mod retry;
pub mod route;
pub mod target;
pub mod text;
pub mod time;
