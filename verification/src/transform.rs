//! The middleware factory: configuration-only, holding the shared guard handle.
//!
//! The surrounding framework rebuilds its request-handling chain per worker
//! instance; on each build the factory produces one fresh middleware around that
//! build's next-stage segment. Building never fails, and every middleware built
//! from one factory shares the factory's guard handle.

use std::rc::Rc;

use vstd::prelude::*;

use crate::middleware::StateGuardMiddleware;
use crate::middleware::share_handle;

verus! {

/// A middleware factory, configured once with the guard it will enforce.
pub struct StateGuard<Guard> {
    guard: Rc<Guard>,
}

impl<Guard> StateGuard<Guard> {
    /// The guard every middleware built from this factory enforces.
    pub closed spec fn guard(self) -> Guard {
        *self.guard
    }

    /// Configures a factory with the given guard.
    pub fn new(guard: Guard) -> (factory: Self)
        ensures
            factory.guard() == guard,
    {
        StateGuard { guard: Rc::new(guard) }
    }

    /// Builds one fresh middleware around `service`, sharing this factory's guard
    /// handle. Building always succeeds.
    pub fn new_transform<Service>(&self, service: Service) -> (middleware: StateGuardMiddleware<
        Service,
        Guard,
    >)
        ensures
            middleware.guard() == self.guard(),
            middleware.service() == service,
    {
        StateGuardMiddleware::new(share_handle(&self.guard), service)
    }
}

} // verus!
