pub mod type_id;
pub mod message;
pub mod frpc_message;
pub mod private;
pub mod __private;
pub mod output;
pub mod responce;

pub use output::{Return, SSE};
pub mod server;
pub mod transport;
pub mod config;
pub mod derive;
pub mod declare;
pub mod definition;
pub mod fn_once;
