//! Core of a volatile task-management service: the task store, the
//! operation registry that validates and dispatches named operations, the
//! handshake, and the per-client session state machine. Beside it, the
//! admission rules of the upload record store.

pub mod error;
pub mod text;
pub mod task;
pub mod store;
pub mod history;
pub mod params;
pub mod tool;
pub mod request;
pub mod registry;
pub mod protocol;
pub mod session;
pub mod manager;
pub mod service;
pub mod record;
