//! The state machine of one connection: which method came, how much of the body
//! has been read, what the dispatcher answered and how much of it has been sent.
use crate::cors::AccessControlAllowOrigin;
use crate::headers::{header_fields, response_fields, response_headers};
use crate::method::Method;
use crate::panic_handler::PanicHandler;
use hyper::header::Headers;
use jsonrpc_core::IoHandler;
use std::sync::Arc;
use std::sync::Mutex;
use vstd::prelude::*;
use vstd::slice::slice_subrange;
use vstd::string::*;
use vstd::utf8::encode_utf8;

verus! {

/// The dispatcher that answers the requests of every connection of one server: a
/// `jsonrpc_core::IoHandler`. Nothing is known of what is inside it.
#[verifier::external_body]
pub struct Dispatcher {
    engine: IoHandler,
}

impl Dispatcher {
    /// Takes a `jsonrpc_core::IoHandler`, or what converts into one, as the
    /// dispatcher. Nothing is claimed of the result.
    #[verifier::external_body]
    pub fn new<E: Into<IoHandler>>(engine: E) -> (dispatcher: Self)
    {
        Dispatcher { engine: engine.into() }
    }
}

/// What the connection engine is asked to do next.
#[derive(Clone, Copy, Debug, PartialEq, Eq, Structural)]
pub enum Next {
    /// Deliver the next read event.
    Read,
    /// Deliver the next write event.
    Write,
    /// Release the connection.
    End,
}

/// How one attempt to read or write went.
#[derive(Clone, Copy, Debug, PartialEq, Eq, Structural)]
pub enum IoOutcome {
    /// The attempt moved this many bytes.
    Bytes(usize),
    /// The connection was not ready; the attempt is to be made again.
    WouldBlock,
    /// The attempt failed for good.
    Failed,
}

/// The status line of a response.
#[derive(Clone, Copy, Debug, PartialEq, Eq, Structural)]
pub enum Status {
    Success,
    MethodNotAllowed,
}

/// What is settled before the first byte of a response body is written.
pub struct ResponseHead {
    pub headers: Headers,
    pub status: Status,
    pub next: Next,
}

/// The state of a connection as contracts see it.
pub struct HandlerState {
    /// The request body read so far.
    pub request: Seq<char>,
    /// The response body, once there is one.
    pub response: Option<Seq<char>>,
    /// How many bytes of the response body the connection has taken.
    pub write_pos: nat,
    /// The texts handed to the dispatcher, in the order of the calls.
    pub dispatched: Seq<Seq<char>>,
}

/// The state of a connection on which nothing has happened yet.
pub open spec fn fresh_state() -> HandlerState {
    HandlerState { request: Seq::empty(), response: None, write_pos: 0, dispatched: Seq::empty() }
}

/// The bytes of the response body; none where there is no body.
pub open spec fn response_bytes(s: HandlerState) -> Seq<u8> {
    match s.response {
        Some(text) => encode_utf8(text),
        None => Seq::empty(),
    }
}

/// The write position lies within the response body.
pub open spec fn state_wf(s: HandlerState) -> bool {
    s.write_pos <= response_bytes(s).len()
}

/// The bytes of the response body that are still to be written.
pub open spec fn pending_bytes(s: HandlerState) -> Seq<u8> {
    response_bytes(s).subrange(s.write_pos as int, response_bytes(s).len() as int)
}

/// The state once the request's method is known: a preflight request is answered
/// with an empty body at once, every other method leaves the state as it was.
pub open spec fn after_method(s: HandlerState, method: Method) -> HandlerState {
    if method.is_preflight() {
        HandlerState { response: Some(Seq::empty()), ..s }
    } else {
        s
    }
}

/// What follows the method: the body is read for a submission, and a response is
/// written for every other method.
pub open spec fn next_after_method(method: Method) -> Next {
    if method.is_submission() {
        Next::Read
    } else {
        Next::Write
    }
}

/// The state after a read attempt that brought `received`.
pub open spec fn after_read(s: HandlerState, received: Seq<char>) -> HandlerState {
    HandlerState { request: s.request + received, ..s }
}

/// Whether a read attempt found the end of the body.
pub open spec fn is_end_of_body(outcome: IoOutcome) -> bool {
    outcome == IoOutcome::Bytes(0)
}

/// What follows a read attempt.
pub open spec fn next_after_read(outcome: IoOutcome) -> Next {
    match outcome {
        IoOutcome::Bytes(n) => if n == 0 { Next::Write } else { Next::Read },
        IoOutcome::WouldBlock => Next::Read,
        IoOutcome::Failed => Next::End,
    }
}

/// A dispatcher's answer as contracts see it.
pub open spec fn answer_text(result: Option<String>) -> Option<Seq<char>> {
    match result {
        Some(text) => Some(text@),
        None => None,
    }
}

/// A dispatcher's answer as a response body: the answer and a line feed, or no
/// body where the dispatcher gave no answer.
pub open spec fn terminated(result: Option<Seq<char>>) -> Option<Seq<char>> {
    match result {
        Some(text) => Some(text + seq!['\n']),
        None => None,
    }
}

/// The state after the dispatcher answered `result`.
pub open spec fn with_response(s: HandlerState, result: Option<Seq<char>>) -> HandlerState {
    HandlerState { response: terminated(result), ..s }
}

/// The state after the whole body was handed to the dispatcher, which answered `result`.
pub open spec fn after_dispatch(s: HandlerState, result: Option<Seq<char>>) -> HandlerState {
    HandlerState { response: terminated(result), dispatched: s.dispatched.push(s.request), ..s }
}

/// The status of the response: success where there is a body, even an empty one.
pub open spec fn status_for(s: HandlerState) -> Status {
    if s.response is Some {
        Status::Success
    } else {
        Status::MethodNotAllowed
    }
}

/// Whether the release of a connection tells the observer: only a release that
/// is part of an unwind does, and only where an observer is registered.
pub open spec fn release_notifies(unwinding: bool, registry: PanicHandler) -> bool {
    unwinding && registry.registered() is Some
}

/// Whether a write attempt's outcome can come from writing the pending bytes: it
/// took no more bytes than were offered.
pub open spec fn write_fits(s: HandlerState, outcome: IoOutcome) -> bool {
    match outcome {
        IoOutcome::Bytes(k) => pending_bytes(s).len() > 0 ==> k <= pending_bytes(s).len(),
        _ => true,
    }
}

/// The bytes that a write attempt with this outcome put on the connection.
pub open spec fn written_by(s: HandlerState, outcome: IoOutcome) -> Seq<u8> {
    match outcome {
        IoOutcome::Bytes(k) => if pending_bytes(s).len() > 0 {
            pending_bytes(s).subrange(0, k as int)
        } else {
            Seq::empty()
        },
        _ => Seq::empty(),
    }
}

/// The state after a write attempt on the pending bytes.
pub open spec fn after_write(s: HandlerState, outcome: IoOutcome) -> HandlerState {
    match outcome {
        IoOutcome::Bytes(k) => if pending_bytes(s).len() > 0 {
            HandlerState { write_pos: s.write_pos + k as nat, ..s }
        } else {
            s
        },
        _ => s,
    }
}

/// What follows a write attempt: the connection ends where nothing was pending,
/// where the attempt completed the body and where it failed for good.
pub open spec fn next_after_write(s: HandlerState, outcome: IoOutcome) -> Next {
    if pending_bytes(s).len() == 0 {
        Next::End
    } else {
        match outcome {
            IoOutcome::Bytes(k) => if k > 0 && k == pending_bytes(s).len() {
                Next::End
            } else {
                Next::Write
            },
            IoOutcome::WouldBlock => Next::Write,
            IoOutcome::Failed => Next::End,
        }
    }
}

/// `jsonrpc_core::IoHandler::handle_request_sync`: runs the methods registered with
/// the dispatcher on the request text. The answer depends on those methods, so
/// nothing is claimed of it. A method that panics unwinds through this call.
#[verifier::external_body]
fn dispatch(handler: &Dispatcher, request: &str) -> (response: Option<String>)
{
    handler.engine.handle_request_sync(request)
}

/// The handler of one connection.
pub struct ServerHandler {
    panic_handler: Arc<Mutex<PanicHandler>>,
    jsonrpc_handler: Arc<Dispatcher>,
    cors_domain: Option<AccessControlAllowOrigin>,
    request: String,
    response: Option<String>,
    write_pos: usize,
    dispatched: Ghost<Seq<Seq<char>>>,
}

impl View for ServerHandler {
    type V = HandlerState;

    closed spec fn view(&self) -> HandlerState {
        HandlerState {
            request: self.request@,
            response: match self.response {
                Some(text) => Some(text@),
                None => None,
            },
            write_pos: self.write_pos as nat,
            dispatched: self.dispatched@,
        }
    }
}

impl ServerHandler {
    /// The policy that decides the origin header of this connection's response.
    pub closed spec fn policy(&self) -> Option<AccessControlAllowOrigin> {
        self.cors_domain
    }

    /// The dispatcher that this connection hands its request to.
    pub closed spec fn dispatcher(&self) -> Arc<Dispatcher> {
        self.jsonrpc_handler
    }

    /// The shared registry whose observer is told of a crash on this connection.
    pub closed spec fn registry(&self) -> Arc<Mutex<PanicHandler>> {
        self.panic_handler
    }

    /// Two handlers serve under the same policy, with the same dispatcher and
    /// the same shared registry.
    pub open spec fn same_setup(&self, other: &Self) -> bool {
        &&& self.policy() == other.policy()
        &&& self.dispatcher() == other.dispatcher()
        &&& self.registry() == other.registry()
    }

    /// The write position lies within the response body.
    pub open spec fn wf(&self) -> bool {
        state_wf(self@)
    }

    /// A handler for a connection on which nothing has happened yet.
    pub fn new(
        jsonrpc_handler: Arc<Dispatcher>,
        cors_domain: Option<AccessControlAllowOrigin>,
        panic_handler: Arc<Mutex<PanicHandler>>,
    ) -> (handler: Self)
        ensures
            handler@ == fresh_state(),
            handler.policy() == cors_domain,
            handler.dispatcher() == jsonrpc_handler,
            handler.registry() == panic_handler,
            handler.wf(),
    {
        ServerHandler {
            panic_handler,
            jsonrpc_handler,
            cors_domain,
            request: String::new(),
            response: None,
            write_pos: 0,
            dispatched: Ghost(Seq::empty()),
        }
    }

    /// The request body read so far.
    pub fn request(&self) -> (text: &str)
        ensures
            text@ == self@.request,
    {
        self.request.as_str()
    }

    /// The response body, once there is one.
    pub fn response(&self) -> (body: Option<&str>)
        ensures
            body is Some <==> self@.response is Some,
            body matches Some(text) ==> Some(text@) == self@.response,
    {
        match &self.response {
            Some(text) => Some(text.as_str()),
            None => None,
        }
    }

    /// How many bytes of the response body the connection has taken.
    pub fn write_pos(&self) -> (pos: usize)
        ensures
            pos == self@.write_pos,
    {
        self.write_pos
    }

    /// The request's method is known. A preflight request gets an empty body and
    /// is answered at once; a submission has its body read; any other method is
    /// answered without a body.
    pub fn on_request(&mut self, method: &Method) -> (next: Next)
        requires
            old(self)@.write_pos == 0,
        ensures
            final(self)@ == after_method(old(self)@, *method),
            next == next_after_method(*method),
            final(self).same_setup(old(self)),
            final(self).wf(),
    {
        match method {
            Method::Options => {
                self.response = Some(String::new());
                Next::Write
            },
            Method::Post => Next::Read,
            _ => Next::Write,
        }
    }

    /// Stores the dispatcher's answer as the response body, with a line feed
    /// after it; no answer leaves the connection without a body.
    pub fn set_response(&mut self, result: Option<String>) -> (next: Next)
        requires
            old(self)@.write_pos == 0,
        ensures
            final(self)@ == with_response(old(self)@, answer_text(result)),
            next == Next::Write,
            final(self).same_setup(old(self)),
            final(self).wf(),
    {
        match result {
            Some(text) => {
                let mut body = text;
                body.append("\n");
                proof {
                    reveal_strlit("\n");
                    assert("\n"@ =~= seq!['\n']);
                }
                self.response = Some(body);
            },
            None => {
                self.response = None;
            },
        }
        Next::Write
    }

    /// The connection was read from: `received` is what the attempt brought,
    /// `outcome` how it ended. What came is appended to the request body. At the
    /// end of the body the whole of it goes to the dispatcher, once, and the
    /// answer becomes the response body; until then the read is repeated, unless
    /// it failed for good, which ends the connection.
    pub fn on_request_readable(&mut self, received: &str, outcome: IoOutcome) -> (next: Next)
        requires
            is_end_of_body(outcome) ==> old(self)@.write_pos == 0,
        ensures
            next == next_after_read(outcome),
            !is_end_of_body(outcome) ==> final(self)@ == after_read(old(self)@, received@),
            is_end_of_body(outcome) ==> exists|result: Option<Seq<char>>|
                final(self)@ == #[trigger] after_dispatch(after_read(old(self)@, received@), result),
            final(self).same_setup(old(self)),
            old(self).wf() ==> final(self).wf(),
    {
        self.request.append(received);
        match outcome {
            IoOutcome::Bytes(n) => {
                if n == 0 {
                    let result = dispatch(&self.jsonrpc_handler, self.request.as_str());
                    let ghost answer = answer_text(result);
                    let ghost before = self@;
                    self.dispatched = Ghost(self.dispatched@.push(self.request@));
                    let next = self.set_response(result);
                    assert(self@ == after_dispatch(before, answer));
                    next
                } else {
                    Next::Read
                }
            },
            IoOutcome::WouldBlock => Next::Read,
            IoOutcome::Failed => Next::End,
        }
    }

    /// The response is about to be written: the header set under the
    /// connection's policy, and the status, which is success where there is a
    /// body and "method not allowed" where there is none.
    pub fn on_response(&self) -> (head: ResponseHead)
        ensures
            header_fields(head.headers) == response_fields(self.policy()),
            head.status == status_for(self@),
            head.next == Next::Write,
    {
        let headers = self.response_headers();
        let status = if self.response.is_none() {
            Status::MethodNotAllowed
        } else {
            Status::Success
        };
        ResponseHead { headers, status, next: Next::Write }
    }

    /// The header set of this connection's response.
    pub fn response_headers(&self) -> (headers: Headers)
        ensures
            header_fields(headers) == response_fields(self.policy()),
    {
        response_headers(&self.cors_domain)
    }

    /// The bytes to offer to the connection at the next write attempt; `None`
    /// where there is no body or all of it has been taken.
    pub fn pending(&self) -> (rest: Option<&[u8]>)
        requires
            self.wf(),
        ensures
            rest is Some <==> pending_bytes(self@).len() > 0,
            rest matches Some(bytes) ==> bytes@ == pending_bytes(self@),
    {
        match &self.response {
            Some(text) => {
                let bytes = text.as_str().as_bytes();
                if bytes.len() == self.write_pos {
                    None
                } else {
                    Some(slice_subrange(bytes, self.write_pos, bytes.len()))
                }
            },
            None => None,
        }
    }

    /// The connection was offered the pending bytes, and `outcome` says how that
    /// went. The write position moves by what was taken. The connection ends
    /// where nothing was pending, where the body is now complete, and where the
    /// attempt failed for good; otherwise the write is repeated.
    pub fn on_response_writable(&mut self, outcome: IoOutcome) -> (next: Next)
        requires
            old(self).wf(),
            write_fits(old(self)@, outcome),
        ensures
            final(self)@ == after_write(old(self)@, outcome),
            next == next_after_write(old(self)@, outcome),
            final(self).same_setup(old(self)),
            final(self).wf(),
    {
        let len = match &self.response {
            Some(text) => text.as_str().as_bytes().len(),
            None => {
                return Next::End;
            },
        };
        assert(len == response_bytes(self@).len());
        assert(pending_bytes(self@).len() == len - self.write_pos);
        if len == self.write_pos {
            return Next::End;
        }
        match outcome {
            IoOutcome::Bytes(k) => {
                if k == 0 {
                    Next::Write
                } else {
                    self.write_pos = self.write_pos + k;
                    if self.write_pos == len {
                        Next::End
                    } else {
                        Next::Write
                    }
                }
            },
            IoOutcome::WouldBlock => Next::Write,
            IoOutcome::Failed => Next::End,
        }
    }

    /// The shared registry of this connection's server.
    pub fn panic_handler(&self) -> (shared: &Arc<Mutex<PanicHandler>>)
        ensures
            *shared == self.registry(),
    {
        &self.panic_handler
    }

    /// The connection is released. `registry` is what the connection's shared
    /// registry holds at that moment, read under its lock. Where the release
    /// is part of an unwind and an observer is registered, the observer is run,
    /// once; an ordinary release tells nobody. The result says whether the
    /// observer was run.
    pub fn on_release(&self, unwinding: bool, registry: &PanicHandler) -> (notified: bool)
        ensures
            notified == release_notifies(unwinding, *registry),
    {
        if unwinding {
            registry.notify()
        } else {
            false
        }
    }
}

} // verus!
