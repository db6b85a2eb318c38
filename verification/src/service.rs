//! The service object: the handles of the two backends that the remote
//! procedures reach.

use vstd::prelude::*;

verus! {

/// The Dragon node's service.  `R` is the handle of the RAM-Lake store and
/// `M` that of the model manager; the service itself keeps no other state.
pub struct DragonNodeServiceImpl<R, M> {
    ram_lake: R,
    model_manager: M,
}

impl<R, M> DragonNodeServiceImpl<R, M> {
    /// The RAM-Lake handle that the service was made with.
    pub closed spec fn ram_lake_handle(&self) -> R {
        self.ram_lake
    }

    /// The model manager handle that the service was made with.
    pub closed spec fn model_manager_handle(&self) -> M {
        self.model_manager
    }

    /// A service over the given backends.
    pub fn new(ram_lake: R, model_manager: M) -> (s: Self)
        ensures
            s.ram_lake_handle() == ram_lake,
            s.model_manager_handle() == model_manager,
    {
        DragonNodeServiceImpl { ram_lake, model_manager }
    }

    /// The RAM-Lake handle, for the caller that performs the store's calls.
    pub fn ram_lake(&self) -> (r: &R)
        ensures
            *r == self.ram_lake_handle(),
    {
        &self.ram_lake
    }

    /// The model manager handle, for the caller that performs its calls.
    pub fn model_manager(&self) -> (m: &M)
        ensures
            *m == self.model_manager_handle(),
    {
        &self.model_manager
    }
}

} // verus!
