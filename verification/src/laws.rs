//! What holds of a connection over whole runs of events, proved from the
//! transitions of the handler.
use crate::cors::AccessControlAllowOrigin;
use crate::handler::{
    after_dispatch, after_method, after_read, after_write, fresh_state, next_after_method,
    next_after_read, next_after_write, release_notifies, response_bytes, state_wf, status_for,
    terminated, write_fits, written_by, HandlerState, IoOutcome, Next, Status,
};
use crate::headers::{
    allow_headers_name, allow_name, allow_origin_name, allowed_methods, allowed_request_headers,
    comma_list, content_type_name, response_fields,
};
use crate::method::Method;
use crate::panic_handler::PanicHandler;
use vstd::prelude::*;

verus! {

/// One read attempt: what it brought and how it ended.
pub struct ReadEvent {
    pub received: Seq<char>,
    pub outcome: IoOutcome,
}

/// Every attempt of the series had the handler ask for another read.
pub open spec fn all_partial(events: Seq<ReadEvent>) -> bool {
    forall|i: int| 0 <= i < events.len() ==> next_after_read(#[trigger] events[i].outcome) == Next::Read
}

/// What a series of read attempts brought, in the order of the attempts.
pub open spec fn received_text(events: Seq<ReadEvent>) -> Seq<char>
    decreases events.len(),
{
    if events.len() == 0 {
        Seq::empty()
    } else {
        received_text(events.drop_last()) + events.last().received
    }
}

/// The state after a series of read attempts none of which found the end of the body.
pub open spec fn after_reads(s: HandlerState, events: Seq<ReadEvent>) -> HandlerState
    decreases events.len(),
{
    if events.len() == 0 {
        s
    } else {
        after_read(after_reads(s, events.drop_last()), events.last().received)
    }
}

/// The state after a series of write attempts.
pub open spec fn after_writes(s: HandlerState, outcomes: Seq<IoOutcome>) -> HandlerState
    decreases outcomes.len(),
{
    if outcomes.len() == 0 {
        s
    } else {
        after_write(after_writes(s, outcomes.drop_last()), outcomes.last())
    }
}

/// Each attempt of the series took no more than it was offered.
pub open spec fn writes_fit(s: HandlerState, outcomes: Seq<IoOutcome>) -> bool
    decreases outcomes.len(),
{
    outcomes.len() == 0 || (writes_fit(s, outcomes.drop_last()) && write_fits(
        after_writes(s, outcomes.drop_last()),
        outcomes.last(),
    ))
}

/// The bytes that a series of write attempts put on the connection, in order.
pub open spec fn written(s: HandlerState, outcomes: Seq<IoOutcome>) -> Seq<u8>
    decreases outcomes.len(),
{
    if outcomes.len() == 0 {
        Seq::empty()
    } else {
        written(s, outcomes.drop_last()) + written_by(
            after_writes(s, outcomes.drop_last()),
            outcomes.last(),
        )
    }
}

/// The last attempt of the series ended the connection, and not by failing.
pub open spec fn completes(s: HandlerState, outcomes: Seq<IoOutcome>) -> bool {
    outcomes.len() > 0 && outcomes.last() != IoOutcome::Failed && next_after_write(
        after_writes(s, outcomes.drop_last()),
        outcomes.last(),
    ) == Next::End
}

/// Read attempts that do not find the end of the body only lengthen the request
/// body, by what they brought and in their order; none of them reaches the
/// dispatcher or touches the response.
pub proof fn law_partial_reads_accumulate(s: HandlerState, events: Seq<ReadEvent>)
    ensures
        after_reads(s, events).request == s.request + received_text(events),
        after_reads(s, events).dispatched == s.dispatched,
        after_reads(s, events).response == s.response,
        after_reads(s, events).write_pos == s.write_pos,
    decreases events.len(),
{
    if events.len() > 0 {
        law_partial_reads_accumulate(s, events.drop_last());
        assert(s.request + received_text(events.drop_last()) + events.last().received =~= s.request
            + (received_text(events.drop_last()) + events.last().received));
    } else {
        assert(s.request + received_text(events) =~= s.request);
    }
}

/// A submission whose body arrives over any number of read attempts reaches the
/// dispatcher exactly once, at the end of the body, with the whole body as it
/// was received; the answer and a line feed become the response body.
pub proof fn law_body_dispatched_once(
    events: Seq<ReadEvent>,
    last: Seq<char>,
    answer: Option<Seq<char>>,
)
    requires
        all_partial(events),
    ensures
        ({
            let start = after_method(fresh_state(), Method::Post);
            let end = after_dispatch(after_read(after_reads(start, events), last), answer);
            &&& next_after_method(Method::Post) == Next::Read
            &&& after_reads(start, events).dispatched.len() == 0
            &&& end.dispatched == seq![received_text(events) + last]
            &&& end.response == terminated(answer)
            &&& end.write_pos == 0
        }),
{
    let start = after_method(fresh_state(), Method::Post);
    law_partial_reads_accumulate(start, events);
    let end = after_dispatch(after_read(after_reads(start, events), last), answer);
    assert(start.request + received_text(events) =~= received_text(events));
    assert(end.dispatched =~= seq![received_text(events) + last]);
}

/// Over any series of write attempts the bytes put on the connection are the
/// stretch of the response body between the write positions before and after,
/// and the write position never passes the end of the body.
pub proof fn law_writes_follow_body(s: HandlerState, outcomes: Seq<IoOutcome>)
    requires
        state_wf(s),
        writes_fit(s, outcomes),
    ensures
        after_writes(s, outcomes).response == s.response,
        after_writes(s, outcomes).request == s.request,
        after_writes(s, outcomes).dispatched == s.dispatched,
        s.write_pos <= after_writes(s, outcomes).write_pos <= response_bytes(s).len(),
        written(s, outcomes) == response_bytes(s).subrange(
            s.write_pos as int,
            after_writes(s, outcomes).write_pos as int,
        ),
    decreases outcomes.len(),
{
    if outcomes.len() > 0 {
        let before = after_writes(s, outcomes.drop_last());
        law_writes_follow_body(s, outcomes.drop_last());
        assert(response_bytes(before) == response_bytes(s));
        assert(written(s, outcomes) =~= response_bytes(s).subrange(
            s.write_pos as int,
            after_writes(s, outcomes).write_pos as int,
        ));
    } else {
        assert(written(s, outcomes) =~= response_bytes(s).subrange(
            s.write_pos as int,
            s.write_pos as int,
        ));
    }
}

/// A response whose writing runs to its end, over any number of attempts, has
/// put exactly the response body on the connection, once and in order, and the
/// write position stands at the body's length.
pub proof fn law_response_written_exactly(s: HandlerState, outcomes: Seq<IoOutcome>)
    requires
        state_wf(s),
        s.write_pos == 0,
        writes_fit(s, outcomes),
        completes(s, outcomes),
    ensures
        after_writes(s, outcomes).write_pos == response_bytes(s).len(),
        written(s, outcomes) == response_bytes(s),
{
    law_writes_follow_body(s, outcomes);
    law_writes_follow_body(s, outcomes.drop_last());
    let before = after_writes(s, outcomes.drop_last());
    assert(response_bytes(before) == response_bytes(s));
    assert(written(s, outcomes) =~= response_bytes(s));
}

/// A preflight request never reaches the dispatcher: it is answered at once,
/// with success and an empty body, so that the first write event ends the
/// connection without a byte written.
pub proof fn law_preflight(s: HandlerState, outcome: IoOutcome)
    requires
        s.write_pos == 0,
    ensures
        ({
            let answered = after_method(s, Method::Options);
            &&& next_after_method(Method::Options) == Next::Write
            &&& answered.dispatched == s.dispatched
            &&& answered.response == Some(Seq::<char>::empty())
            &&& status_for(answered) == Status::Success
            &&& response_bytes(answered).len() == 0
            &&& next_after_write(answered, outcome) == Next::End
            &&& after_write(answered, outcome) == answered
        }),
{
    let answered = after_method(s, Method::Options);
    assert(response_bytes(answered) =~= Seq::<u8>::empty()) by {
        reveal_with_fuel(vstd::utf8::encode_utf8, 1);
    }
}

/// A request whose method is neither the preflight nor the submission method
/// never reaches the dispatcher and never gets a body: on a fresh connection it
/// is answered "method not allowed", and the first write event ends the
/// connection without a byte written.
pub proof fn law_unsupported_method(method: Method, outcome: IoOutcome)
    requires
        !method.is_preflight(),
        !method.is_submission(),
    ensures
        ({
            let answered = after_method(fresh_state(), method);
            &&& next_after_method(method) == Next::Write
            &&& answered.dispatched.len() == 0
            &&& answered.response is None
            &&& status_for(answered) == Status::MethodNotAllowed
            &&& response_bytes(answered).len() == 0
            &&& next_after_write(answered, outcome) == Next::End
            &&& after_write(answered, outcome) == answered
        }),
{
}

/// Every response, whatever its status, names the same methods, content type
/// and admissible request headers.
pub proof fn law_fixed_headers(cors_domain: Option<AccessControlAllowOrigin>)
    ensures
        response_fields(cors_domain).contains_key(allow_name()),
        response_fields(cors_domain)[allow_name()] == "OPTIONS, POST"@,
        response_fields(cors_domain).contains_key(content_type_name()),
        response_fields(cors_domain)[content_type_name()] == "application/json"@,
        response_fields(cors_domain).contains_key(allow_headers_name()),
        response_fields(cors_domain)[allow_headers_name()] == "origin, content-type, accept"@,
{
    lemma_names_differ();
    lemma_list_values();
}

/// A response carries the origin header exactly where the server has a policy,
/// and its value is then the policy's: `*` where every origin is admitted.
pub proof fn law_origin_header(cors_domain: Option<AccessControlAllowOrigin>)
    ensures
        response_fields(cors_domain).contains_key(allow_origin_name()) <==> cors_domain is Some,
        cors_domain matches Some(origin) ==> response_fields(cors_domain)[allow_origin_name()]
            == origin.value_spec(),
        cors_domain == Some(AccessControlAllowOrigin::Any) ==> response_fields(
            cors_domain,
        )[allow_origin_name()] == "*"@,
{
    lemma_names_differ();
}

/// A connection that crashes tells the registered observer, if there is one,
/// and a connection that ends in the ordinary way tells nobody, whatever is
/// registered.
pub proof fn law_crash_is_reported(registry: PanicHandler)
    ensures
        release_notifies(true, registry) <==> registry.registered() is Some,
        !release_notifies(false, registry),
{
}

/// The four header names are four different names.
proof fn lemma_names_differ()
    ensures
        allow_name() != content_type_name(),
        allow_name() != allow_headers_name(),
        allow_name() != allow_origin_name(),
        content_type_name() != allow_headers_name(),
        content_type_name() != allow_origin_name(),
        allow_headers_name() != allow_origin_name(),
{
    reveal_strlit("allow");
    reveal_strlit("content-type");
    reveal_strlit("access-control-allow-headers");
    reveal_strlit("access-control-allow-origin");
    assert(allow_name().len() == 5);
    assert(content_type_name().len() == 12);
    assert(allow_headers_name().len() == 28);
    assert(allow_origin_name().len() == 27);
}

/// The two list headers, written out.
proof fn lemma_list_values()
    ensures
        comma_list(crate::method::method_names(allowed_methods())) == "OPTIONS, POST"@,
        comma_list(allowed_request_headers()) == "origin, content-type, accept"@,
{
    reveal_strlit("OPTIONS");
    reveal_strlit("POST");
    reveal_strlit("OPTIONS, POST");
    reveal_strlit("origin");
    reveal_strlit("content-type");
    reveal_strlit("accept");
    reveal_strlit("origin, content-type, accept");
    reveal_with_fuel(comma_list, 4);
    let methods = crate::method::method_names(allowed_methods());
    assert(methods =~= seq!["OPTIONS"@, "POST"@]);
    assert(methods.drop_last() =~= seq!["OPTIONS"@]);
    assert(comma_list(methods) =~= "OPTIONS, POST"@);
    let names = allowed_request_headers();
    assert(names.drop_last() =~= seq!["origin"@, "content-type"@]);
    assert(names.drop_last().drop_last() =~= seq!["origin"@]);
    assert(comma_list(names.drop_last()) =~= "origin, content-type"@.subrange(0, 20)) by {
        reveal_strlit("origin, content-type");
    }
    assert(comma_list(names) =~= "origin, content-type, accept"@);
}

} // verus!
