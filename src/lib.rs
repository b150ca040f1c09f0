//! Worker dispatch core of an edge function runtime: worker identity, the
//! worker pool and its controller decisions, and the per-request decisions of
//! the connection service.

mod external;
pub mod keys;
pub mod pool;
pub mod service;
pub mod server;
pub mod response;
