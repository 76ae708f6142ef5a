//! The service's response envelope: resource sets, each holding resources.

use vstd::prelude::*;

verus! {

/// One group of results.
pub struct ResourceSet<T> {
    pub resources: Vec<T>,
}

/// The envelope around every result the service returns.
pub struct Response<T> {
    pub resource_sets: Vec<ResourceSet<T>>,
}

impl<T> Response<T> {
    /// The resources of the first resource set; none where there is no set.
    pub open spec fn first_set_resources(&self) -> Seq<T> {
        if self.resource_sets@.len() > 0 {
            self.resource_sets@[0].resources@
        } else {
            Seq::empty()
        }
    }

    /// Takes the resources of the first resource set, in the order given, or
    /// an empty list where the envelope holds no set.
    pub fn first_resources(self) -> (r: Vec<T>)
        ensures
            r@ == self.first_set_resources(),
    {
        let mut sets = self.resource_sets;
        if sets.len() > 0 {
            let set = sets.swap_remove(0);
            set.resources
        } else {
            Vec::new()
        }
    }
}

} // verus!
