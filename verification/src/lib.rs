//! HTTP transport for a JSON-RPC request dispatcher: the state machine of one
//! connection, the headers of its response, and the slot through which a crash
//! on one connection is reported.
pub mod cors;
pub mod error;
pub mod handler;
pub mod headers;
pub mod laws;
pub mod method;
pub mod panic_handler;
pub mod server;

pub use cors::AccessControlAllowOrigin;
pub use error::RpcServerError;
pub use handler::{Dispatcher, IoOutcome, Next, ResponseHead, ServerHandler, Status};
pub use method::Method;
pub use panic_handler::{PanicCallback, PanicHandler};
pub use server::{Connections, Server};
