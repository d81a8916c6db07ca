//! A uniform access layer over three relational engines: an embedded
//! file-based engine and two client/server engines.
//!
//! The crate holds every decision of the layer and none of its I/O. An
//! adapter outside this crate talks to the native clients; it hands each
//! native outcome to the functions here as plain values and receives
//! engine-independent results back. Connections live in a
//! [`pool::ConnectionPool`], which owns the native sessions without looking
//! inside them.

pub mod commands;
pub mod connection;
pub mod contract;
pub mod handle;
pub mod introspect;
pub mod laws;
pub mod mysql;
pub mod native;
pub mod pool;
pub mod postgres;
pub mod sqlite;
pub mod text;
pub mod types;
