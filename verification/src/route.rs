//! What a route does to the requests that match it.

pub mod backend;
pub mod deadline;
pub mod extensions;
pub mod filters;
pub mod retry;
