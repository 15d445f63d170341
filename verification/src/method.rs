//! Request methods, as the connection engine reports them.
use vstd::prelude::*;

verus! {

/// The method of an HTTP request.
pub enum Method {
    Options,
    Get,
    Post,
    Put,
    Delete,
    Head,
    Trace,
    Connect,
    Patch,
    /// Any method without a variant of its own, by its token.
    Extension(String),
}

impl Method {
    /// The token that stands for the method on the wire.
    pub open spec fn name_spec(self) -> Seq<char> {
        match self {
            Method::Options => "OPTIONS"@,
            Method::Get => "GET"@,
            Method::Post => "POST"@,
            Method::Put => "PUT"@,
            Method::Delete => "DELETE"@,
            Method::Head => "HEAD"@,
            Method::Trace => "TRACE"@,
            Method::Connect => "CONNECT"@,
            Method::Patch => "PATCH"@,
            Method::Extension(token) => token@,
        }
    }

    /// Whether this is the method by which a browser asks for permission before the real request.
    pub open spec fn is_preflight(self) -> bool {
        self is Options
    }

    /// Whether this is the method that carries a request for the dispatcher.
    pub open spec fn is_submission(self) -> bool {
        self is Post
    }

    pub fn name(&self) -> (token: String)
        ensures
            token@ == self.name_spec(),
    {
        match self {
            Method::Options => "OPTIONS".to_owned(),
            Method::Get => "GET".to_owned(),
            Method::Post => "POST".to_owned(),
            Method::Put => "PUT".to_owned(),
            Method::Delete => "DELETE".to_owned(),
            Method::Head => "HEAD".to_owned(),
            Method::Trace => "TRACE".to_owned(),
            Method::Connect => "CONNECT".to_owned(),
            Method::Patch => "PATCH".to_owned(),
            Method::Extension(token) => token.clone(),
        }
    }
}

/// The tokens of a list of methods, in the list's order.
pub open spec fn method_names(methods: Seq<Method>) -> Seq<Seq<char>> {
    methods.map_values(|m: Method| m.name_spec())
}

} // verus!
