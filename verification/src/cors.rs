//! The cross-origin policy of a server.
use vstd::prelude::*;

verus! {

/// Which origin a response admits. A server without a policy holds none of these
/// and sends no such header.
pub enum AccessControlAllowOrigin {
    /// Every origin is admitted.
    Any,
    /// The hidden origin.
    Null,
    /// One origin is admitted, and only that one.
    Value(String),
}

impl AccessControlAllowOrigin {
    /// The text of the header that announces this policy.
    pub open spec fn value_spec(self) -> Seq<char> {
        match self {
            AccessControlAllowOrigin::Any => "*"@,
            AccessControlAllowOrigin::Null => "null"@,
            AccessControlAllowOrigin::Value(origin) => origin@,
        }
    }

    pub fn value(&self) -> (text: String)
        ensures
            text@ == self.value_spec(),
    {
        match self {
            AccessControlAllowOrigin::Any => "*".to_owned(),
            AccessControlAllowOrigin::Null => "null".to_owned(),
            AccessControlAllowOrigin::Value(origin) => origin.clone(),
        }
    }

    /// A copy for another connection.
    pub fn duplicate(&self) -> (copy: Self)
        ensures
            copy == *self,
    {
        match self {
            AccessControlAllowOrigin::Any => AccessControlAllowOrigin::Any,
            AccessControlAllowOrigin::Null => AccessControlAllowOrigin::Null,
            AccessControlAllowOrigin::Value(origin) => AccessControlAllowOrigin::Value(origin.clone()),
        }
    }
}

} // verus!
