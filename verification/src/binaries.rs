//! The binaries tree.

use crate::error::ResolveError;
use crate::index::AssetIndex;
use crate::locator::Locator;
use crate::store::address_of;
use crate::store::locate;
use crate::store::served_at;
use crate::store::AssetStore;
use crate::store::StoreView;
use vstd::prelude::*;

verus! {

/// The store of the binaries tree: it serves the virtual URLs of scheme
/// `app`.
pub struct Binaries {
    store: AssetStore,
}

impl View for Binaries {
    type V = StoreView;

    closed spec fn view(&self) -> StoreView {
        self.store@
    }
}

impl Binaries {
    pub fn new(binaries_base: String, index: AssetIndex) -> (binaries: Binaries)
        ensures
            binaries@ == (StoreView { base: binaries_base@, index: index@ }),
    {
        Binaries { store: AssetStore::new(binaries_base, index) }
    }

    /// The address at which the binaries tree serves `url`, or `None` for a
    /// URL that its index does not hold.
    pub fn get(&self, url: Locator) -> (found: Result<Option<Locator>, ResolveError>)
        ensures
            address_of(found) == locate(self@, url@),
            !self@.index.contains_key(url@) ==> found matches Ok(None),
            self@.index.contains_key(url@) ==> served_at(found, self@.base, self@.index[url@]),
    {
        self.store.get(&url)
    }

    /// The index and its base endpoint.
    pub fn store(&self) -> (store: &AssetStore)
        ensures
            store@ == self@,
    {
        &self.store
    }
}

} // verus!
