use std::sync::atomic::{AtomicUsize, Ordering};
use std::sync::{Arc, Mutex};

use jsonrpc_core::IoHandler;
use jsonrpc_http_server::{
    AccessControlAllowOrigin, Connections, Dispatcher, IoOutcome, Method, Next, PanicCallback,
    PanicHandler, RpcServerError, Server, ServerHandler,
};

struct Counter {
    hits: Arc<AtomicUsize>,
}

impl PanicCallback for Counter {
    fn invoke(&self) {
        self.hits.fetch_add(1, Ordering::SeqCst);
    }
}

fn counter(hits: &Arc<AtomicUsize>) -> Arc<dyn PanicCallback> {
    Arc::new(Counter { hits: hits.clone() })
}

fn shared() -> Arc<Mutex<PanicHandler>> {
    Arc::new(Mutex::new(PanicHandler::new()))
}

fn handler_on(registry: &Arc<Mutex<PanicHandler>>) -> ServerHandler {
    ServerHandler::new(Arc::new(Dispatcher::new(IoHandler::new())), None, registry.clone())
}

fn listening() -> hyper::server::Listening {
    hyper::Server::http("127.0.0.1:0")
        .unwrap()
        .handle(|_: hyper::server::Request, _: hyper::server::Response| {})
        .unwrap()
}

#[test]
fn empty_slot_notifies_nobody() {
    let registry = PanicHandler::new();
    assert!(!registry.is_registered());
    assert!(!registry.notify());
}

#[test]
fn every_new_slot_starts_empty() {
    let hits = Arc::new(AtomicUsize::new(0));
    let mut first = PanicHandler::new();
    first.set(counter(&hits));
    let second = PanicHandler::new();
    assert!(!second.is_registered());
    assert!(!second.notify());
    assert_eq!(hits.load(Ordering::SeqCst), 0);
    assert!(first.notify());
    assert_eq!(hits.load(Ordering::SeqCst), 1);
}

#[test]
fn registered_observer_runs_once_per_notification() {
    let hits = Arc::new(AtomicUsize::new(0));
    let mut registry = PanicHandler::new();
    registry.set(counter(&hits));
    assert!(registry.is_registered());
    assert!(registry.notify());
    assert_eq!(hits.load(Ordering::SeqCst), 1);
    assert!(registry.is_registered());
    assert!(registry.notify());
    assert_eq!(hits.load(Ordering::SeqCst), 2);
}

#[test]
fn later_registration_replaces_the_earlier() {
    let first = Arc::new(AtomicUsize::new(0));
    let second = Arc::new(AtomicUsize::new(0));
    let mut registry = PanicHandler::new();
    registry.set(counter(&first));
    registry.set(counter(&second));
    assert!(registry.notify());
    assert_eq!(first.load(Ordering::SeqCst), 0);
    assert_eq!(second.load(Ordering::SeqCst), 1);
}

#[test]
fn handles_share_one_slot() {
    let hits = Arc::new(AtomicUsize::new(0));
    let registry = shared();
    let handler = handler_on(&registry);
    assert!(Arc::ptr_eq(handler.panic_handler(), &registry));
    assert!(!handler.on_release(true, &handler.panic_handler().lock().unwrap()));
    registry.lock().unwrap().set(counter(&hits));
    assert!(handler.on_release(true, &handler.panic_handler().lock().unwrap()));
    assert_eq!(hits.load(Ordering::SeqCst), 1);
}

#[test]
fn ordinary_release_tells_nobody() {
    let hits = Arc::new(AtomicUsize::new(0));
    let registry = shared();
    registry.lock().unwrap().set(counter(&hits));
    let mut handler = handler_on(&registry);
    assert_eq!(handler.on_request(&Method::Options), Next::Write);
    assert_eq!(handler.on_response_writable(IoOutcome::WouldBlock), Next::End);
    assert!(!handler.on_release(false, &registry.lock().unwrap()));
    assert_eq!(hits.load(Ordering::SeqCst), 0);
    assert!(registry.lock().unwrap().is_registered());
}

#[test]
fn unwinding_release_tells_the_observer_once() {
    let hits = Arc::new(AtomicUsize::new(0));
    let registry = shared();
    let crashed = handler_on(&registry);
    let mut next = handler_on(&registry);
    registry.lock().unwrap().set(counter(&hits));
    assert!(crashed.on_release(true, &registry.lock().unwrap()));
    assert_eq!(hits.load(Ordering::SeqCst), 1);
    assert!(registry.lock().unwrap().is_registered());
    assert_eq!(next.on_request(&Method::Post), Next::Read);
    assert_eq!(next.on_request_readable("", IoOutcome::Bytes(0)), Next::Write);
    assert!(next.response().is_some());
    assert!(!next.on_release(false, &registry.lock().unwrap()));
    assert_eq!(hits.load(Ordering::SeqCst), 1);
}

#[test]
fn unwinding_release_without_observer() {
    let registry = shared();
    let handler = handler_on(&registry);
    assert!(!handler.on_release(true, &registry.lock().unwrap()));
    assert!(!handler.on_release(false, &registry.lock().unwrap()));
}

#[test]
fn connections_of_one_server_share_its_slot() {
    let hits = Arc::new(AtomicUsize::new(0));
    let registry = shared();
    let connections = Connections::new(
        Arc::new(Dispatcher::new(IoHandler::new())),
        Some(AccessControlAllowOrigin::Any),
        registry.clone(),
    );
    let first = connections.connect();
    let second = connections.connect();
    assert_eq!(first.request(), "");
    assert_eq!(first.response(), None);
    assert_eq!(first.write_pos(), 0);
    assert!(Arc::ptr_eq(first.panic_handler(), &registry));
    assert!(Arc::ptr_eq(second.panic_handler(), &registry));
    assert!(!first.on_release(true, &first.panic_handler().lock().unwrap()));
    registry.lock().unwrap().set(counter(&hits));
    assert!(first.on_release(true, &first.panic_handler().lock().unwrap()));
    assert!(second.on_release(true, &second.panic_handler().lock().unwrap()));
    assert_eq!(hits.load(Ordering::SeqCst), 2);
}

#[test]
fn server_releases_its_listener_once() {
    let hits = Arc::new(AtomicUsize::new(0));
    let registry = shared();
    let mut server = Server::new(listening(), registry.clone());
    assert!(Arc::ptr_eq(server.panic_handler(), &registry));
    server.panic_handler().lock().unwrap().set(counter(&hits));
    assert!(registry.lock().unwrap().notify());
    assert_eq!(hits.load(Ordering::SeqCst), 1);
    assert!(server.close());
    assert!(!server.close());
    assert!(!server.close());
}

#[test]
fn a_start_that_listens_gives_a_server() {
    let registry = shared();
    let mut server = match Server::started(Ok(listening()), registry.clone()) {
        Ok(server) => server,
        Err(_) => panic!("a listener was turned into a failure"),
    };
    assert!(Arc::ptr_eq(server.panic_handler(), &registry));
    assert!(server.close());
    assert!(!server.close());
}

#[test]
fn a_start_that_fails_gives_its_cause() {
    let inner = std::io::Error::new(std::io::ErrorKind::AddrInUse, "taken");
    match Server::started(Err(hyper::error::Error::Io(inner)), shared()) {
        Err(RpcServerError::IoError(inner)) => {
            assert_eq!(inner.kind(), std::io::ErrorKind::AddrInUse);
            assert_eq!(inner.to_string(), "taken");
        }
        _ => panic!("an I/O failure was not reported as one"),
    }
    match Server::started(Err(hyper::error::Error::Header), shared()) {
        Err(RpcServerError::Other(hyper::error::Error::Header)) => {}
        _ => panic!("the failure was not kept as it came"),
    }
}

#[test]
fn io_failure_is_sorted_out() {
    let inner = std::io::Error::new(std::io::ErrorKind::AddrInUse, "taken");
    let error = RpcServerError::from(hyper::error::Error::Io(inner));
    assert!(error.is_io_error());
    match error {
        RpcServerError::IoError(inner) => {
            assert_eq!(inner.kind(), std::io::ErrorKind::AddrInUse);
            assert_eq!(inner.to_string(), "taken");
        }
        RpcServerError::Other(_) => panic!("an I/O failure was kept as another error"),
    }
}

#[test]
fn other_failures_are_kept() {
    let error = RpcServerError::from(hyper::error::Error::Method);
    assert!(!error.is_io_error());
    match error {
        RpcServerError::Other(hyper::error::Error::Method) => {}
        _ => panic!("the error was not kept as it came"),
    }
    assert!(!RpcServerError::from(hyper::error::Error::TooLarge).is_io_error());
}
