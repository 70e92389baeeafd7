//! Host-based request routing for an edge proxy, with machine-checked contracts.

pub mod backend;
pub mod laws;
pub mod logger;
pub mod lookup;
pub mod pipeline;
pub mod reason;
pub mod request;
pub mod table;
pub mod text;
