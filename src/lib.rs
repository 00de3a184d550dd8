//! An authorization layer for a versioned entity store: it derives who is
//! calling, decides per class whether that caller may act, and checks that new
//! references between entities are allowed by the target class. Beside it
//! stands a registry of which storage provider holds which content.
pub mod error;
pub mod laws;
pub mod permissions;
pub mod principal;
pub mod storage_registry;
pub mod store;
