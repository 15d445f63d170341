//! The header set that every response carries.
use crate::cors::AccessControlAllowOrigin;
use crate::method::{method_names, Method};
use hyper::header::Headers;
use vstd::prelude::*;

verus! {

#[verifier::external_type_specification]
#[verifier::external_body]
pub struct ExHeaders(Headers);

/// The lines that a header collection holds: each header's rendered value, under
/// the header's name in lower case (hyper compares names without regard to case).
pub uninterp spec fn header_fields(headers: Headers) -> Map<Seq<char>, Seq<char>>;

/// The items of a list header as one value: joined by a comma and a space.
pub open spec fn comma_list(items: Seq<Seq<char>>) -> Seq<char>
    decreases items.len(),
{
    if items.len() == 0 {
        Seq::empty()
    } else if items.len() == 1 {
        items[0]
    } else {
        comma_list(items.drop_last()) + seq![',', ' '] + items.last()
    }
}

pub open spec fn allow_name() -> Seq<char> {
    "allow"@
}

pub open spec fn content_type_name() -> Seq<char> {
    "content-type"@
}

pub open spec fn allow_headers_name() -> Seq<char> {
    "access-control-allow-headers"@
}

pub open spec fn allow_origin_name() -> Seq<char> {
    "access-control-allow-origin"@
}

pub open spec fn json_content_type() -> Seq<char> {
    "application/json"@
}

/// A header set without a header.
pub open spec fn no_fields() -> Map<Seq<char>, Seq<char>> {
    Map::empty()
}

/// The methods that the server recognises, as `Allow` lists them.
pub open spec fn allowed_methods() -> Seq<Method> {
    seq![Method::Options, Method::Post]
}

/// The request headers that a cross-origin caller may send.
pub open spec fn allowed_request_headers() -> Seq<Seq<char>> {
    seq!["origin"@, "content-type"@, "accept"@]
}

/// The header set of a response under the given policy.
pub open spec fn response_fields(cors_domain: Option<AccessControlAllowOrigin>) -> Map<Seq<char>, Seq<char>> {
    let fixed = no_fields()
        .insert(allow_name(), comma_list(method_names(allowed_methods())))
        .insert(content_type_name(), json_content_type())
        .insert(allow_headers_name(), comma_list(allowed_request_headers()));
    match cors_domain {
        Some(origin) => fixed.insert(allow_origin_name(), origin.value_spec()),
        None => fixed,
    }
}

/// `hyper::header::Headers::new`: the collection it returns holds no header.
#[verifier::external_body]
fn empty_headers() -> (headers: Headers)
    ensures
        header_fields(headers) == no_fields(),
{
    Headers::new()
}

/// `Headers::set` with `hyper::header::Allow`: files the methods under `Allow`, in
/// place of an earlier value; hyper renders them by their tokens, joined by ", ".
#[verifier::external_body]
fn set_allow(headers: &mut Headers, methods: &Vec<Method>)
    ensures
        header_fields(*final(headers)) == header_fields(*old(headers)).insert(
            allow_name(),
            comma_list(method_names(methods@)),
        ),
{
    let listed = methods.iter().map(|m| match m {
        Method::Options => hyper::method::Method::Options,
        Method::Get => hyper::method::Method::Get,
        Method::Post => hyper::method::Method::Post,
        Method::Put => hyper::method::Method::Put,
        Method::Delete => hyper::method::Method::Delete,
        Method::Head => hyper::method::Method::Head,
        Method::Trace => hyper::method::Method::Trace,
        Method::Connect => hyper::method::Method::Connect,
        Method::Patch => hyper::method::Method::Patch,
        Method::Extension(token) => hyper::method::Method::Extension(token.clone()),
    }).collect();
    headers.set(hyper::header::Allow(listed));
}

/// `Headers::set` with `hyper::header::ContentType::json()`: files the JSON media
/// type under `Content-Type`, in place of an earlier value.
#[verifier::external_body]
fn set_content_type_json(headers: &mut Headers)
    ensures
        header_fields(*final(headers)) == header_fields(*old(headers)).insert(
            content_type_name(),
            json_content_type(),
        ),
{
    headers.set(hyper::header::ContentType::json());
}

/// `Headers::set` with `hyper::header::AccessControlAllowHeaders`: files the names
/// under `Access-Control-Allow-Headers`, in place of an earlier value; hyper renders
/// them as they are written, joined by ", ".
#[verifier::external_body]
fn set_access_control_allow_headers(headers: &mut Headers, names: &Vec<String>)
    ensures
        header_fields(*final(headers)) == header_fields(*old(headers)).insert(
            allow_headers_name(),
            comma_list(names@.map_values(|name: String| name@)),
        ),
{
    let listed = names.iter().map(|name| unicase::UniCase(name.clone())).collect();
    headers.set(hyper::header::AccessControlAllowHeaders(listed));
}

/// `Headers::set` with `hyper::header::AccessControlAllowOrigin`: files the policy
/// under `Access-Control-Allow-Origin`, in place of an earlier value; hyper renders
/// it as `*`, as `null`, or as the origin itself.
#[verifier::external_body]
fn set_access_control_allow_origin(headers: &mut Headers, origin: &AccessControlAllowOrigin)
    ensures
        header_fields(*final(headers)) == header_fields(*old(headers)).insert(
            allow_origin_name(),
            origin.value_spec(),
        ),
{
    headers.set(match origin {
        AccessControlAllowOrigin::Any => hyper::header::AccessControlAllowOrigin::Any,
        AccessControlAllowOrigin::Null => hyper::header::AccessControlAllowOrigin::Null,
        AccessControlAllowOrigin::Value(o) => hyper::header::AccessControlAllowOrigin::Value(o.clone()),
    });
}

/// Builds the header set of a response: the recognised methods, the JSON content
/// type, the request headers a cross-origin caller may send and, where there is a
/// policy, the origin it admits.
pub fn response_headers(cors_domain: &Option<AccessControlAllowOrigin>) -> (headers: Headers)
    ensures
        header_fields(headers) == response_fields(*cors_domain),
{
    let mut headers = empty_headers();
    let mut methods: Vec<Method> = Vec::new();
    methods.push(Method::Options);
    methods.push(Method::Post);
    assert(methods@ =~= allowed_methods());
    set_allow(&mut headers, &methods);
    set_content_type_json(&mut headers);
    let mut names: Vec<String> = Vec::new();
    names.push("origin".to_owned());
    names.push("content-type".to_owned());
    names.push("accept".to_owned());
    assert(names@.map_values(|name: String| name@) =~= allowed_request_headers());
    set_access_control_allow_headers(&mut headers, &names);
    match cors_domain {
        Some(origin) => {
            set_access_control_allow_origin(&mut headers, origin);
        },
        None => {},
    }
    headers
}

} // verus!
