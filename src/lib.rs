//! Control layer for serial ports: line settings and their native encoding,
//! modem lines, buffer queries, the decisions of tasks that share a handle,
//! and a uniform error taxonomy.
pub mod control;
pub mod error;
pub mod lines;
pub mod session;
pub mod settings;
