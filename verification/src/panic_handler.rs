//! The crash-notification registry of one server: at most one observer, told
//! when a connection is torn down by an unwind.
//!
//! The registry is a plain value. A server shares one among its connections as
//! `Arc<Mutex<PanicHandler>>`; whoever holds the lock registers and notifies.
use std::sync::Arc;
use std::sync::Mutex;
use vstd::prelude::*;

verus! {

#[verifier::external_type_specification]
#[verifier::external_body]
#[verifier::reject_recursive_types(T)]
pub struct ExMutex<T: ?Sized>(Mutex<T>);

/// A crash observer: one operation, run when a connection is torn down by an unwind.
pub trait PanicCallback: Send + Sync + 'static {
    fn invoke(&self);
}

/// A registry that holds at most one crash observer.
pub struct PanicHandler {
    handler: Option<Arc<dyn PanicCallback>>,
}

impl PanicHandler {
    /// The observer that is registered, if there is one.
    pub closed spec fn registered(&self) -> Option<Arc<dyn PanicCallback>> {
        self.handler
    }

    /// A registry without an observer.
    pub fn new() -> (registry: Self)
        ensures
            registry.registered() is None,
    {
        PanicHandler { handler: None }
    }

    /// Whether an observer is registered.
    pub fn is_registered(&self) -> (registered: bool)
        ensures
            registered == (self.registered() is Some),
    {
        self.handler.is_some()
    }

    /// Registers the observer, in place of an earlier one. Nothing but another
    /// registration takes it out again.
    pub fn set(&mut self, callback: Arc<dyn PanicCallback>)
        ensures
            final(self).registered() == Some(callback),
    {
        let registered = Some(callback);
        self.handler = registered;
    }

    /// Runs the registered observer, once, if there is one, and says whether
    /// there was. The registry is left as it is. Where the registry is shared
    /// behind a lock, the caller holds the lock while the observer runs, so
    /// that no registration falls into the middle of it; an observer that
    /// registers on its own registry would then wait for itself for ever.
    pub fn notify(&self) -> (called: bool)
        ensures
            called == (self.registered() is Some),
    {
        match &self.handler {
            Some(callback) => {
                callback.invoke();
                true
            },
            None => false,
        }
    }
}

} // verus!
