pub mod handlers;
pub mod properties;
pub mod rpc;
pub mod server;
pub mod tool_handler;
pub mod tools;
