//! The resources tree.

use crate::error::ResolveError;
use crate::index::AssetIndex;
use crate::locator::Locator;
use crate::store::address_of;
use crate::store::locate;
use crate::store::served_at;
use crate::store::AssetStore;
use crate::store::StoreView;
use vstd::prelude::*;

verus! {

/// The store of the resources tree: it serves the virtual URLs of scheme
/// `res`.
pub struct Resources {
    store: AssetStore,
}

impl View for Resources {
    type V = StoreView;

    closed spec fn view(&self) -> StoreView {
        self.store@
    }
}

impl Resources {
    pub fn new(resources_base: String, index: AssetIndex) -> (resources: Resources)
        ensures
            resources@ == (StoreView { base: resources_base@, index: index@ }),
    {
        Resources { store: AssetStore::new(resources_base, index) }
    }

    /// The address at which the resources tree serves `url`, or `None` for a
    /// URL that its index does not hold.
    pub fn get(&self, url: Locator) -> (found: Result<Option<Locator>, ResolveError>)
        ensures
            address_of(found) == locate(self@, url@),
            !self@.index.contains_key(url@) ==> found matches Ok(None),
            self@.index.contains_key(url@) ==> served_at(found, self@.base, self@.index[url@]),
    {
        self.store.get(&url)
    }

    /// The index and its base endpoint.
    pub fn store(&self) -> (store: &AssetStore)
        ensures
            store@ == self@,
    {
        &self.store
    }
}

} // verus!
