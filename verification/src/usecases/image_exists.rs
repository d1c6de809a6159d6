use std::sync::Arc;
use vstd::prelude::*;

use crate::common::error::Error;
use crate::common::variant::Variant;
use crate::usecases::gateways::Storage;

verus! {

/// Asks whether the original of an asset is stored.
pub struct ImageExists<S: Storage> {
    storage: Arc<S>,
}

/// Builds the check over a store.
pub fn new<S: Storage>(storage: Arc<S>) -> (check: ImageExists<S>)
    ensures
        *check.storage() == *storage,
{
    ImageExists { storage }
}

/// What a probe says about existence: an object found is there, an object
/// not found is not, and a failed probe is the failure.
pub open spec fn existence(probe: Result<Option<(String, String)>, Error>) -> Result<bool, Error> {
    match probe {
        Ok(found) => Ok(found is Some),
        Err(e) => Err(e),
    }
}

/// Reads a probe's answer as a yes or no.
pub fn answer(probe: Result<Option<(String, String)>, Error>) -> (res: Result<bool, Error>)
    ensures
        res == existence(probe),
{
    match probe {
        Ok(found) => Ok(found.is_some()),
        Err(e) => Err(e),
    }
}

impl<S: Storage> ImageExists<S> {
    /// The store this check probes.
    pub closed spec fn storage(&self) -> &S {
        &*self.storage
    }

    /// Whether the original of the asset `file_name` is stored: the answer
    /// of one probe for it, read as a yes or no.
    pub fn execute(&self, file_name: String) -> (res: Result<bool, Error>)
        ensures
            exists|probe: Result<Option<(String, String)>, Error>|
                call_ensures(S::get, (self.storage(), Variant::Original, file_name), probe)
                    && res == #[trigger] existence(probe),
    {
        let probe = self.storage.get(Variant::Original, file_name);
        let res = answer(probe);
        proof {
            assert(res == existence(probe));
        }
        res
    }
}

} // verus!
