//! A registry of services, one per type tag.

use vstd::prelude::*;
use std::collections::HashMap;

verus! {

/// Owns at most one service for each type tag.
///
/// A tag stands for the type of a service: two services of one type carry
/// the same tag, and services of different types carry different tags. `S`
/// is the type that holds a service of any of the types registered, such as
/// an enum with one variant per type. The registry keeps what it is given
/// and lends it out by reference.
pub struct ServiceRegistry<S> {
    services: HashMap<u64, S>,
}

impl<S> View for ServiceRegistry<S> {
    type V = Map<u64, S>;

    /// The service registered under each tag.
    closed spec fn view(&self) -> Map<u64, S> {
        self.services@
    }
}

impl<S> ServiceRegistry<S> {
    /// A registry without services.
    pub fn new() -> (registry: Self)
        ensures
            registry@ == Map::<u64, S>::empty(),
    {
        ServiceRegistry { services: HashMap::new() }
    }

    /// Registers `service` under `tag`. A service registered under the same
    /// tag before is given up for it; every other service stays.
    pub fn add_service(&mut self, tag: u64, service: S)
        ensures
            final(self)@ == old(self)@.insert(tag, service),
    {
        self.services.insert(tag, service);
    }

    /// The service registered under `tag`, if there is one.
    pub fn get_service(&self, tag: u64) -> (service: Option<&S>)
        ensures
            service == (if self@.contains_key(tag) {
                Some(&self@[tag])
            } else {
                None
            }),
    {
        self.services.get(&tag)
    }
}

} // verus!
