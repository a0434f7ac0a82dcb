//! Configuration model of the service supervisor: validated listen
//! addresses, the configuration aggregate with its builder API, and the
//! write-once configuration cache.
pub mod text;
pub mod net;
pub mod error;
pub mod addr;
pub mod config;
pub mod cache;
pub mod bldr;
