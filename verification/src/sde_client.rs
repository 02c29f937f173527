//! The client: one resolver and the two stores that it resolved.

use crate::binaries::Binaries;
use crate::error::ResolveError;
use crate::locator::scheme_of;
use crate::locator::Locator;
use crate::resources::Resources;
use crate::store::address_of;
use crate::store::locate;
use crate::store::StoreView;
use crate::version::begin;
use crate::version::Goal;
use crate::version::Step;
use crate::version::Version;
use crate::version::VersionView;
use vstd::prelude::*;
use vstd::string::*;

verus! {

/// The scheme of the virtual URLs that the binaries tree serves.
pub const BINARIES_SCHEME: &'static str = "app";

/// The scheme of the virtual URLs that the resources tree serves.
pub const RESOURCES_SCHEME: &'static str = "res";

/// A resolver with the stores of one resolution. The stores are never
/// resolved anew: a client for a later build is another client.
pub struct SdeClient {
    version: Version,
    binaries: Binaries,
    resources: Resources,
}

/// What a client holds.
pub struct ClientView {
    pub version: VersionView,
    pub binaries: StoreView,
    pub resources: StoreView,
}

impl View for SdeClient {
    type V = ClientView;

    closed spec fn view(&self) -> ClientView {
        ClientView { version: self.version@, binaries: self.binaries@, resources: self.resources@ }
    }
}

/// Where a client serves `url`: the scheme alone decides which store is
/// asked, and a scheme that is neither store's is a failure.
pub open spec fn dispatch(client: ClientView, url: Seq<char>) -> Result<
    Option<Seq<char>>,
    ResolveError,
> {
    if scheme_of(url) == BINARIES_SCHEME@ {
        locate(client.binaries, url)
    } else if scheme_of(url) == RESOURCES_SCHEME@ {
        locate(client.resources, url)
    } else {
        Err(ResolveError::UnsupportedScheme)
    }
}

/// The two schemes are not the same.
pub proof fn lemma_schemes_differ()
    ensures
        BINARIES_SCHEME@ != RESOURCES_SCHEME@,
{
    reveal_strlit("app");
    reveal_strlit("res");
    assert(BINARIES_SCHEME@[0] == 'a');
    assert(RESOURCES_SCHEME@[0] == 'r');
}

impl SdeClient {
    pub fn new(version: Version, binaries: Binaries, resources: Resources) -> (client: SdeClient)
        ensures
            client@ == (ClientView {
                version: version@,
                binaries: binaries@,
                resources: resources@,
            }),
    {
        SdeClient { version, binaries, resources }
    }

    /// Starts the resolution of both stores of `version`. It ends with
    /// [`crate::version::Outcome::Resolved`], from whose stores
    /// [`SdeClient::new`] makes the client. The binaries index is requested
    /// once and serves both as the binaries store and as the way to the
    /// resources index.
    pub fn from_version(version: &Version) -> (step: Step)
        ensures
            step@ == begin(version@, Goal::Client),
    {
        version.resolve()
    }

    /// Starts the discovery of the build that is current now, which need
    /// not be the build that the stores were resolved for.
    pub fn build(&self) -> (step: Step)
        ensures
            step@ == begin(self@.version, Goal::Build),
    {
        self.version.build()
    }

    /// The address at which `url` is served, or `None` for a URL that the
    /// store of its scheme does not hold.
    pub fn get(&self, url: Locator) -> (found: Result<Option<Locator>, ResolveError>)
        ensures
            address_of(found) == dispatch(self@, url@),
            scheme_of(url@) == BINARIES_SCHEME@ ==> address_of(found) == locate(
                self@.binaries,
                url@,
            ),
            scheme_of(url@) == RESOURCES_SCHEME@ ==> address_of(found) == locate(
                self@.resources,
                url@,
            ),
            scheme_of(url@) != BINARIES_SCHEME@ && scheme_of(url@) != RESOURCES_SCHEME@ ==> found
                == Err::<Option<Locator>, _>(ResolveError::UnsupportedScheme),
    {
        proof {
            lemma_schemes_differ();
        }
        let scheme = url.scheme();
        if scheme == String::from_str(BINARIES_SCHEME) {
            self.binaries.get(url)
        } else if scheme == String::from_str(RESOURCES_SCHEME) {
            self.resources.get(url)
        } else {
            Err(ResolveError::UnsupportedScheme)
        }
    }

    /// The resolver.
    pub fn version(&self) -> (version: &Version)
        ensures
            version@ == self@.version,
    {
        &self.version
    }

    /// The store of the binaries tree.
    pub fn binaries(&self) -> (binaries: &Binaries)
        ensures
            binaries@ == self@.binaries,
    {
        &self.binaries
    }

    /// The store of the resources tree.
    pub fn resources(&self) -> (resources: &Resources)
        ensures
            resources@ == self@.resources,
    {
        &self.resources
    }
}

} // verus!
