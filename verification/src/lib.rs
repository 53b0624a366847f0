//! An HTTP-to-gRPC gateway library: the request buffer, routing tables,
//! configuration defaults and the decision logic of the gateway's handlers.

pub mod client;
pub mod config;
pub mod db;
pub mod error;
pub mod format;
pub mod gateway;
pub mod proto;
pub mod utils;

pub use config::{GrpcConfig, RedisConfig};
pub use error::GatewayError;
pub use format::Format;
