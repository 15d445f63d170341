//! What a listening server holds, and what it gives each connection.
use crate::cors::AccessControlAllowOrigin;
use crate::error::{carried_io_error, carries_io_error, RpcServerError};
use crate::handler::{fresh_state, Dispatcher, ServerHandler};
use crate::panic_handler::PanicHandler;
use hyper::server::Listening;
use std::sync::Arc;
use std::sync::Mutex;
use vstd::prelude::*;

verus! {

#[verifier::external_type_specification]
#[verifier::external_body]
pub struct ExListening(Listening);

/// `hyper::server::Listening::close`: asks the listener to stop. Nothing is
/// claimed of the socket afterwards: this version of hyper documents that the
/// server goes on listening.
#[verifier::external_body]
fn stop_listening(listening: &mut Listening)
{
    let _ = listening.close();
}

/// What every connection of one server is made from.
pub struct Connections {
    jsonrpc_handler: Arc<Dispatcher>,
    cors_domain: Option<AccessControlAllowOrigin>,
    panic_handler: Arc<Mutex<PanicHandler>>,
}

impl Connections {
    pub closed spec fn policy(&self) -> Option<AccessControlAllowOrigin> {
        self.cors_domain
    }

    pub closed spec fn dispatcher(&self) -> Arc<Dispatcher> {
        self.jsonrpc_handler
    }

    pub closed spec fn registry(&self) -> Arc<Mutex<PanicHandler>> {
        self.panic_handler
    }

    pub fn new(
        jsonrpc_handler: Arc<Dispatcher>,
        cors_domain: Option<AccessControlAllowOrigin>,
        panic_handler: Arc<Mutex<PanicHandler>>,
    ) -> (connections: Self)
        ensures
            connections.policy() == cors_domain,
            connections.dispatcher() == jsonrpc_handler,
            connections.registry() == panic_handler,
    {
        Connections { jsonrpc_handler, cors_domain, panic_handler }
    }

    /// The handler of a newly accepted connection: nothing has happened on it,
    /// and it shares the server's dispatcher, policy and registry.
    pub fn connect(&self) -> (handler: ServerHandler)
        ensures
            handler@ == fresh_state(),
            handler.wf(),
            handler.policy() == self.policy(),
            handler.dispatcher() == self.dispatcher(),
            handler.registry() == self.registry(),
    {
        let cors_domain = match &self.cors_domain {
            Some(origin) => Some(origin.duplicate()),
            None => None,
        };
        ServerHandler::new(self.jsonrpc_handler.clone(), cors_domain, self.panic_handler.clone())
    }
}

/// A server that was started: the handle of its listener, until it is closed,
/// and the registry that it shares with its connections.
pub struct Server {
    server: Option<Listening>,
    panic_handler: Arc<Mutex<PanicHandler>>,
}

impl Server {
    /// Whether the server still holds the handle of its listener. It says
    /// nothing of the socket itself.
    pub closed spec fn holds_listener(&self) -> bool {
        self.server is Some
    }

    /// The shared registry whose observer is told of a crash on a connection.
    pub closed spec fn registry(&self) -> Arc<Mutex<PanicHandler>> {
        self.panic_handler
    }

    /// A server around a listener that has been started.
    pub fn new(listening: Listening, panic_handler: Arc<Mutex<PanicHandler>>) -> (server: Self)
        ensures
            server.holds_listener(),
            server.registry() == panic_handler,
    {
        Server { server: Some(listening), panic_handler }
    }

    /// What a start comes to: a server around the listener where binding and
    /// listening succeeded, and otherwise the failure, sorted by its cause.
    pub fn started(
        outcome: Result<Listening, hyper::error::Error>,
        panic_handler: Arc<Mutex<PanicHandler>>,
    ) -> (result: Result<Server, RpcServerError>)
        ensures
            result is Ok <==> outcome is Ok,
            result matches Ok(server) ==> server.holds_listener() && server.registry()
                == panic_handler,
            result matches Err(error) ==> outcome matches Err(cause) && (error is IoError
                <==> carries_io_error(cause)),
            result matches Err(RpcServerError::IoError(inner)) ==> outcome matches Err(cause)
                && inner == carried_io_error(cause),
            result matches Err(RpcServerError::Other(other)) ==> outcome matches Err(cause)
                && other == cause,
    {
        match outcome {
            Ok(listening) => Ok(Server::new(listening, panic_handler)),
            Err(cause) => Err(RpcServerError::from(cause)),
        }
    }

    /// The shared registry. Registering an observer in it, under its lock,
    /// reaches every connection of this server, those accepted before too.
    pub fn panic_handler(&self) -> (shared: &Arc<Mutex<PanicHandler>>)
        ensures
            *shared == self.registry(),
    {
        &self.panic_handler
    }

    /// Gives up the handle of the listener and asks the listener to stop. The
    /// handle is given up on the first call and on no later one; the result
    /// says whether this call gave it up.
    pub fn close(&mut self) -> (released: bool)
        ensures
            released == old(self).holds_listener(),
            !final(self).holds_listener(),
            final(self).registry() == old(self).registry(),
    {
        match self.server.take() {
            Some(listening) => {
                let mut listening = listening;
                stop_listening(&mut listening);
                true
            },
            None => false,
        }
    }
}

} // verus!
