//! An index bound to the endpoint that serves its files.

use crate::error::ResolveError;
use crate::index::entry_of;
use crate::index::index_of_rows;
use crate::index::last_entry_for;
use crate::index::lemma_index_lookup;
use crate::index::AssetIndex;
use crate::index::Tree;
use crate::locator::url_join;
use crate::locator::Locator;
use vstd::prelude::*;

verus! {

/// What a store is, mathematically: the text of its base endpoint and the
/// mapping from virtual URLs to paths below it.
pub struct StoreView {
    pub base: Seq<char>,
    pub index: Map<Seq<char>, Seq<char>>,
}

/// Where a store serves `url`. A URL that the index does not hold is served
/// nowhere, which is no failure; one that it holds is served at its path,
/// resolved against the base.
pub open spec fn locate(store: StoreView, url: Seq<char>) -> Result<
    Option<Seq<char>>,
    ResolveError,
> {
    if !store.index.contains_key(url) {
        Ok(None)
    } else {
        match url_join(store.base, store.index[url]) {
            Some(address) => Ok(Some(address)),
            None => Err(ResolveError::Fetch),
        }
    }
}

/// The answer of a lookup, as plain text.
pub open spec fn address_of(found: Result<Option<Locator>, ResolveError>) -> Result<
    Option<Seq<char>>,
    ResolveError,
> {
    match found {
        Ok(Some(address)) => Ok(Some(address@)),
        Ok(None) => Ok(None),
        Err(e) => Err(e),
    }
}

/// The lookup found exactly the address that `path` resolves to against
/// `base`, or failed because there is no such address.
pub open spec fn served_at(
    found: Result<Option<Locator>, ResolveError>,
    base: Seq<char>,
    path: Seq<char>,
) -> bool {
    match url_join(base, path) {
        Some(address) => found matches Ok(Some(a)) && a@ == address,
        None => found == Err::<Option<Locator>, _>(ResolveError::Fetch),
    }
}

/// An index together with the base endpoint of its tree.
pub struct AssetStore {
    base: String,
    index: AssetIndex,
}

impl View for AssetStore {
    type V = StoreView;

    closed spec fn view(&self) -> StoreView {
        StoreView { base: self.base@, index: self.index@ }
    }
}

impl AssetStore {
    pub fn new(base: String, index: AssetIndex) -> (store: AssetStore)
        ensures
            store@ == (StoreView { base: base@, index: index@ }),
    {
        AssetStore { base, index }
    }

    /// The base endpoint.
    pub fn base(&self) -> (base: &str)
        ensures
            base@ == self@.base,
    {
        self.base.as_str()
    }

    /// The index.
    pub fn index(&self) -> (index: &AssetIndex)
        ensures
            index@ == self@.index,
    {
        &self.index
    }

    /// The address at which `url` is served, or `None` for a URL that this
    /// store does not hold.
    pub fn get(&self, url: &Locator) -> (found: Result<Option<Locator>, ResolveError>)
        ensures
            address_of(found) == locate(self@, url@),
            !self@.index.contains_key(url@) ==> found matches Ok(None),
            self@.index.contains_key(url@) ==> served_at(found, self@.base, self@.index[url@]),
    {
        match self.index.get(url) {
            None => Ok(None),
            Some(path) => match Locator::join(self.base.as_str(), path.as_str()) {
                Some(address) => Ok(Some(address)),
                None => Err(ResolveError::Fetch),
            },
        }
    }
}

/// Building an index and looking a URL up in it leads to the address that
/// a direct request would go to: the path of the last record that holds the
/// URL, resolved against the base.
pub proof fn lemma_round_trip(
    rows: Seq<Option<Seq<Seq<char>>>>,
    tree: Tree,
    base: Seq<char>,
    url: Seq<char>,
    n: int,
)
    requires
        index_of_rows(rows, tree) is Ok,
        last_entry_for(rows, tree, url, n),
    ensures
        locate(StoreView { base, index: index_of_rows(rows, tree)->Ok_0 }, url) == (match url_join(
            base,
            entry_of(rows[n], tree)->Ok_0.1,
        ) {
            Some(address) => Ok::<_, ResolveError>(Some(address)),
            None => Err(ResolveError::Fetch),
        }),
{
    lemma_index_lookup(rows, tree, url);
}

/// A URL that no record holds is served nowhere, which is no failure.
pub proof fn lemma_absent_is_none(
    rows: Seq<Option<Seq<Seq<char>>>>,
    tree: Tree,
    base: Seq<char>,
    url: Seq<char>,
)
    requires
        index_of_rows(rows, tree) is Ok,
        forall|n: int|
            0 <= n < rows.len() ==> !(entry_of(#[trigger] rows[n], tree) matches Ok(entry)
                && entry.0 == url),
    ensures
        locate(StoreView { base, index: index_of_rows(rows, tree)->Ok_0 }, url) == Ok::<
            _,
            ResolveError,
        >(None::<Seq<char>>),
{
    lemma_index_lookup(rows, tree, url);
}

} // verus!
