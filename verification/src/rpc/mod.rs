//! JSON-RPC 2.0 daemon logic: protocol types, routing and change events.

pub mod dispatch;
pub mod protocol;
pub mod events;
pub mod server;

pub use protocol::{RpcNotification, RpcRequest, RpcResponse};
pub use server::ServerConfig;
