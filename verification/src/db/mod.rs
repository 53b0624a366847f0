//! The backend service's request dispatch: route tables and the answers to queries.

pub mod router;
pub mod service;

pub use service::DbService;
