//! The resolver: build discovery, then the binaries index, then the
//! resources index, which is itself a file of the binaries tree.
//!
//! Nothing here performs a request. An operation starts by naming the
//! address to request ([`Step::Request`]); the caller fetches it and hands
//! the reply to [`Version::advance`], which names the next address, or ends
//! with what was asked for or with the failure.

use crate::binaries::Binaries;
use crate::error::ResolveError;
use crate::index::index_of_rows;
use crate::index::lemma_without;
use crate::index::without;
use crate::index::AssetIndex;
use crate::index::Tree;
use crate::locator::url_join;
use crate::locator::url_parse;
use crate::locator::Locator;
use crate::manifest::manifest_build;
use crate::manifest::read_build;
use crate::records::csv_records;
use crate::resources::Resources;
use crate::store::locate;
use crate::store::StoreView;
use crate::version::builder::Layer;
use vstd::prelude::*;
use vstd::string::*;

pub mod builder;

pub use builder::Builder;

verus! {

/// What the index file of a build is called: this, the build, and
/// [`INDEX_SUFFIX`].
pub const INDEX_PREFIX: &'static str = "eveonline_";

pub const INDEX_SUFFIX: &'static str = ".txt";

/// The virtual URL under which the binaries tree serves the index of the
/// resources tree.
pub const RESOURCE_INDEX: &'static str = "app:/resfileindex.txt";

/// The resolver: the endpoints of one deployment and the layers of the
/// transport that reaches them. It keeps nothing of what it resolves.
pub struct Version {
    version_base: String,
    eveclient_path: String,
    binaries_base: String,
    resources_base: String,
    transport: Vec<Layer>,
}

/// What a resolver holds.
pub struct VersionView {
    pub version_base: Seq<char>,
    pub eveclient_path: Seq<char>,
    pub binaries_base: Seq<char>,
    pub resources_base: Seq<char>,
    pub transport: Seq<Layer>,
}

impl View for Version {
    type V = VersionView;

    closed spec fn view(&self) -> VersionView {
        VersionView {
            version_base: self.version_base@,
            eveclient_path: self.eveclient_path@,
            binaries_base: self.binaries_base@,
            resources_base: self.resources_base@,
            transport: self.transport@,
        }
    }
}

/// What a resolution is to end with.
#[derive(Clone, Copy, Debug, PartialEq, Eq, Structural)]
pub enum Goal {
    /// The build identifier.
    Build,
    /// The store of the binaries tree.
    Binaries,
    /// The store of the resources tree.
    Resources,
    /// The build identifier and both stores, resolved together.
    Client,
}

/// The document that a resolution waits for.
#[derive(Clone, Copy, Debug, PartialEq, Eq, Structural)]
pub enum Stage {
    Manifest,
    BinariesIndex,
    ResourcesIndex,
}

/// A resolution that waits for a reply.
pub struct Pending {
    goal: Goal,
    stage: Stage,
    build: Option<String>,
    binaries: Option<Binaries>,
}

/// What a waiting resolution holds: its goal, the document that it waits
/// for, and what it has found and keeps for the end. Only a resolution of
/// everything together keeps anything.
pub struct PendingView {
    pub goal: Goal,
    pub stage: Stage,
    pub build: Option<Seq<char>>,
    pub binaries: Option<StoreView>,
}

impl View for Pending {
    type V = PendingView;

    closed spec fn view(&self) -> PendingView {
        PendingView {
            goal: self.goal,
            stage: self.stage,
            build: match self.build {
                Some(build) => Some(build@),
                None => None,
            },
            binaries: match self.binaries {
                Some(binaries) => Some(binaries@),
                None => None,
            },
        }
    }
}

impl Pending {
    #[verifier::type_invariant]
    spec fn consistent(self) -> bool {
        on_course(self.goal, self@)
    }

    /// What the resolution is to end with.
    pub fn goal(&self) -> (goal: Goal)
        ensures
            goal == self@.goal,
    {
        self.goal
    }

    /// The document that the resolution waits for.
    pub fn stage(&self) -> (stage: Stage)
        ensures
            stage == self@.stage,
    {
        self.stage
    }
}

/// What the transport made of a request.
pub enum Reply {
    /// The whole body of the response.
    Body(Vec<u8>),
    /// The request failed before any of the body arrived.
    Refused,
    /// The body broke off while it was read.
    Interrupted,
}

pub enum ReplyView {
    Body(Seq<u8>),
    Refused,
    Interrupted,
}

impl View for Reply {
    type V = ReplyView;

    open spec fn view(&self) -> ReplyView {
        match self {
            Reply::Body(data) => ReplyView::Body(data@),
            Reply::Refused => ReplyView::Refused,
            Reply::Interrupted => ReplyView::Interrupted,
        }
    }
}

/// What a resolution ends with.
pub enum Outcome {
    Build(String),
    Binaries(Binaries),
    Resources(Resources),
    /// The build and the two stores that were resolved for it.
    Resolved(String, Binaries, Resources),
}

pub enum OutcomeView {
    Build(Seq<char>),
    Binaries(StoreView),
    Resources(StoreView),
    Resolved(Seq<char>, StoreView, StoreView),
}

impl View for Outcome {
    type V = OutcomeView;

    open spec fn view(&self) -> OutcomeView {
        match self {
            Outcome::Build(build) => OutcomeView::Build(build@),
            Outcome::Binaries(binaries) => OutcomeView::Binaries(binaries@),
            Outcome::Resources(resources) => OutcomeView::Resources(resources@),
            Outcome::Resolved(build, binaries, resources) => OutcomeView::Resolved(
                build@,
                binaries@,
                resources@,
            ),
        }
    }
}

/// What is to happen next in a resolution.
pub enum Step {
    /// Request this address, and hand the reply to [`Version::advance`]
    /// together with this state.
    Request(Locator, Pending),
    /// The resolution has ended with what was asked for.
    Done(Outcome),
    /// The resolution has failed.
    Failed(ResolveError),
}

pub enum StepView {
    Request(Seq<char>, PendingView),
    Done(OutcomeView),
    Failed(ResolveError),
}

impl View for Step {
    type V = StepView;

    open spec fn view(&self) -> StepView {
        match self {
            Step::Request(address, pending) => StepView::Request(address@, pending@),
            Step::Done(outcome) => StepView::Done(outcome@),
            Step::Failed(e) => StepView::Failed(*e),
        }
    }
}

/// The name of the binaries index file of a build.
pub open spec fn index_name(build: Seq<char>) -> Seq<char> {
    INDEX_PREFIX@ + build + INDEX_SUFFIX@
}

/// What a resolution of `goal` keeps of `found` for its end.
pub open spec fn kept<T>(goal: Goal, found: T) -> Option<T> {
    if goal == Goal::Client {
        Some(found)
    } else {
        None
    }
}

/// How every resolution starts: with the request for the manifest, which
/// lies at the manifest path below the version endpoint.
pub open spec fn begin(version: VersionView, goal: Goal) -> StepView {
    match url_join(version.version_base, version.eveclient_path) {
        Some(address) => StepView::Request(
            address,
            PendingView { goal, stage: Stage::Manifest, build: None, binaries: None },
        ),
        None => StepView::Failed(ResolveError::Manifest),
    }
}

/// What follows the manifest: the build that it names is the outcome, or it
/// decides which index file is requested next.
pub open spec fn after_manifest(version: VersionView, goal: Goal, reply: ReplyView) -> StepView {
    match reply {
        ReplyView::Body(data) => match manifest_build(data) {
            Some(build) => if goal == Goal::Build {
                StepView::Done(OutcomeView::Build(build))
            } else {
                match url_join(version.version_base, index_name(build)) {
                    Some(address) => StepView::Request(
                        address,
                        PendingView {
                            goal,
                            stage: Stage::BinariesIndex,
                            build: kept(goal, build),
                            binaries: None,
                        },
                    ),
                    None => StepView::Failed(ResolveError::IndexFetch),
                }
            },
            None => StepView::Failed(ResolveError::Manifest),
        },
        _ => StepView::Failed(ResolveError::Manifest),
    }
}

/// The request for the index of the resources tree, which the binaries tree
/// serves under [`RESOURCE_INDEX`]. A binaries index without that entry
/// cannot lead to the resources; neither could a reserved URL that the URL
/// parser refused.
pub open spec fn resources_request(
    binaries: StoreView,
    goal: Goal,
    build: Option<Seq<char>>,
) -> StepView {
    match url_parse(RESOURCE_INDEX@) {
        Some(key) => match locate(binaries, key) {
            Ok(Some(address)) => StepView::Request(
                address,
                PendingView {
                    goal,
                    stage: Stage::ResourcesIndex,
                    build,
                    binaries: kept(goal, binaries),
                },
            ),
            Ok(None) => StepView::Failed(ResolveError::MissingResourceIndex),
            Err(e) => StepView::Failed(e),
        },
        None => StepView::Failed(ResolveError::MissingResourceIndex),
    }
}

/// What follows the binaries index: its store is the outcome, or the way to
/// the index of the resources tree.
pub open spec fn after_binaries_index(
    version: VersionView,
    goal: Goal,
    build: Option<Seq<char>>,
    reply: ReplyView,
) -> StepView {
    match reply {
        ReplyView::Body(data) => match index_of_rows(csv_records(data), Tree::Binaries) {
            Ok(index) => {
                let binaries = StoreView { base: version.binaries_base, index };
                if goal == Goal::Resources || goal == Goal::Client {
                    resources_request(binaries, goal, build)
                } else {
                    StepView::Done(OutcomeView::Binaries(binaries))
                }
            },
            Err(e) => StepView::Failed(e),
        },
        _ => StepView::Failed(ResolveError::IndexFetch),
    }
}

/// What follows the resources index: its store, together with the build and
/// the binaries store where those were kept.
pub open spec fn after_resources_index(
    version: VersionView,
    build: Option<Seq<char>>,
    binaries: Option<StoreView>,
    reply: ReplyView,
) -> StepView {
    match reply {
        ReplyView::Body(data) => match index_of_rows(csv_records(data), Tree::Resources) {
            Ok(index) => {
                let resources = StoreView { base: version.resources_base, index };
                match (build, binaries) {
                    (Some(build), Some(binaries)) => StepView::Done(
                        OutcomeView::Resolved(build, binaries, resources),
                    ),
                    _ => StepView::Done(OutcomeView::Resources(resources)),
                }
            },
            Err(e) => StepView::Failed(e),
        },
        ReplyView::Refused => StepView::Failed(ResolveError::Fetch),
        ReplyView::Interrupted => StepView::Failed(ResolveError::IndexFetch),
    }
}

/// How a waiting resolution goes on once the reply is there.
pub open spec fn advance(version: VersionView, pending: PendingView, reply: ReplyView) -> StepView {
    match pending.stage {
        Stage::Manifest => after_manifest(version, pending.goal, reply),
        Stage::BinariesIndex => after_binaries_index(version, pending.goal, pending.build, reply),
        Stage::ResourcesIndex => after_resources_index(
            version,
            pending.build,
            pending.binaries,
            reply,
        ),
    }
}

/// What a step becomes once the reply to its request is there. A step that
/// requests nothing stays what it is.
pub open spec fn follow(version: VersionView, step: StepView, reply: ReplyView) -> StepView {
    match step {
        StepView::Request(_, pending) => advance(version, pending, reply),
        _ => step,
    }
}

/// Where a resolution stands after the replies to its requests so far.
pub open spec fn run(version: VersionView, goal: Goal, replies: Seq<ReplyView>) -> StepView
    decreases replies.len(),
{
    if replies.len() == 0 {
        begin(version, goal)
    } else {
        follow(version, run(version, goal, replies.drop_last()), replies.last())
    }
}

/// The resolution of the resources passes through that of the binaries: on
/// the same two replies it fails as that one fails, and where that one ends
/// with the binaries store it goes on from that store.
pub proof fn lemma_resources_through_binaries(
    version: VersionView,
    manifest: ReplyView,
    index: ReplyView,
)
    ensures
        match run(version, Goal::Binaries, seq![manifest, index]) {
            StepView::Done(OutcomeView::Binaries(binaries)) => run(
                version,
                Goal::Resources,
                seq![manifest, index],
            ) == resources_request(binaries, Goal::Resources, None),
            StepView::Failed(e) => run(version, Goal::Resources, seq![manifest, index])
                == StepView::Failed(e),
            _ => false,
        },
{
    let both = seq![manifest, index];
    let first = seq![manifest];
    assert(both.drop_last() =~= first);
    assert(first.drop_last() =~= Seq::<ReplyView>::empty());
    assert(both.last() == index);
    assert(first.last() == manifest);
    reveal_with_fuel(run, 3);
}

/// Resolving everything together gives what resolving each alone gives on
/// the same replies, with one request for the manifest and one for the
/// binaries index in place of several.
pub proof fn lemma_client_is_all_three(
    version: VersionView,
    manifest: ReplyView,
    index: ReplyView,
    resources: ReplyView,
)
    ensures
        match run(version, Goal::Client, seq![manifest, index, resources]) {
            StepView::Done(OutcomeView::Resolved(build, b, r)) => {
                &&& run(version, Goal::Build, seq![manifest]) == StepView::Done(
                    OutcomeView::Build(build),
                )
                &&& run(version, Goal::Binaries, seq![manifest, index]) == StepView::Done(
                    OutcomeView::Binaries(b),
                )
                &&& run(version, Goal::Resources, seq![manifest, index, resources])
                    == StepView::Done(OutcomeView::Resources(r))
            },
            StepView::Failed(e) => run(version, Goal::Resources, seq![manifest, index, resources])
                == StepView::Failed(e),
            _ => false,
        },
{
    let all = seq![manifest, index, resources];
    let both = seq![manifest, index];
    let first = seq![manifest];
    assert(all.drop_last() =~= both);
    assert(both.drop_last() =~= first);
    assert(first.drop_last() =~= Seq::<ReplyView>::empty());
    assert(all.last() == resources);
    assert(both.last() == index);
    assert(first.last() == manifest);
    reveal_with_fuel(run, 4);
}

/// The outcome is what `goal` asks for.
pub open spec fn fits(goal: Goal, outcome: OutcomeView) -> bool {
    match goal {
        Goal::Build => outcome is Build,
        Goal::Binaries => outcome is Binaries,
        Goal::Resources => outcome is Resources,
        Goal::Client => outcome is Resolved,
    }
}

/// What holds of every state that a resolution of `goal` waits in: it
/// waits for no more than its goal calls for, and it keeps what it has
/// found exactly where everything is resolved together.
pub open spec fn on_course(goal: Goal, pending: PendingView) -> bool {
    &&& pending.goal == goal
    &&& pending.stage != Stage::Manifest ==> goal != Goal::Build
    &&& pending.stage == Stage::BinariesIndex ==> (pending.build is Some <==> goal == Goal::Client)
    &&& pending.stage == Stage::ResourcesIndex ==> {
        &&& goal != Goal::Binaries
        &&& pending.build is Some <==> goal == Goal::Client
        &&& pending.binaries is Some <==> goal == Goal::Client
    }
}

/// Whatever the replies, a resolution ends only with what it was started
/// for.
pub proof fn lemma_outcome_fits_goal(version: VersionView, goal: Goal, replies: Seq<ReplyView>)
    ensures
        match run(version, goal, replies) {
            StepView::Request(_, pending) => on_course(goal, pending),
            StepView::Done(outcome) => fits(goal, outcome),
            StepView::Failed(_) => true,
        },
    decreases replies.len(),
{
    if replies.len() > 0 {
        lemma_outcome_fits_goal(version, goal, replies.drop_last());
    }
}

/// The number of documents that a resolution of `goal` requests at most.
pub open spec fn requests(goal: Goal) -> nat {
    match goal {
        Goal::Build => 1,
        Goal::Binaries => 2,
        Goal::Resources => 3,
        Goal::Client => 3,
    }
}

/// The document that a resolution waits for after so many replies.
pub open spec fn stage_after(replies: nat) -> Stage {
    if replies == 0 {
        Stage::Manifest
    } else if replies == 1 {
        Stage::BinariesIndex
    } else {
        Stage::ResourcesIndex
    }
}

/// Every resolution comes to an end: it requests one document after
/// another, each of them once, and after the last reply that its goal
/// calls for it requests nothing more.
pub proof fn lemma_resolution_ends(version: VersionView, goal: Goal, replies: Seq<ReplyView>)
    ensures
        run(version, goal, replies) matches StepView::Request(_, pending) ==> {
            &&& replies.len() < requests(goal)
            &&& pending.stage == stage_after(replies.len())
        },
    decreases replies.len(),
{
    if replies.len() > 0 {
        lemma_resolution_ends(version, goal, replies.drop_last());
        lemma_outcome_fits_goal(version, goal, replies.drop_last());
        lemma_outcome_fits_goal(version, goal, replies);
    }
}

/// The resources index is found through the binaries index alone. A
/// binaries index without an entry for [`RESOURCE_INDEX`] fails the
/// resolution of the resources, while the resolution of the binaries
/// succeeds on the same reply and keeps every entry that the index has.
pub proof fn lemma_resources_need_their_entry(version: VersionView, data: Seq<u8>)
    requires
        index_of_rows(csv_records(data), Tree::Binaries) is Ok,
        url_parse(RESOURCE_INDEX@) matches Some(key) ==> !index_of_rows(
            csv_records(data),
            Tree::Binaries,
        )->Ok_0.contains_key(key),
    ensures
        advance(
            version,
            PendingView {
                goal: Goal::Resources,
                stage: Stage::BinariesIndex,
                build: None,
                binaries: None,
            },
            ReplyView::Body(data),
        ) == StepView::Failed(ResolveError::MissingResourceIndex),
        advance(
            version,
            PendingView {
                goal: Goal::Binaries,
                stage: Stage::BinariesIndex,
                build: None,
                binaries: None,
            },
            ReplyView::Body(data),
        ) == StepView::Done(
            OutcomeView::Binaries(
                StoreView {
                    base: version.binaries_base,
                    index: index_of_rows(csv_records(data), Tree::Binaries)->Ok_0,
                },
            ),
        ),
{
}

/// Taking the entry for the resources index out of a binaries index fails
/// the resolution of the resources on it, while the resolution of the
/// binaries still succeeds and keeps every other entry.
pub proof fn lemma_entry_removed(
    version: VersionView,
    whole: Seq<u8>,
    removed: Seq<u8>,
    key: Seq<char>,
)
    requires
        index_of_rows(csv_records(whole), Tree::Binaries) is Ok,
        url_parse(RESOURCE_INDEX@) == Some(key),
        csv_records(removed) == without(csv_records(whole), Tree::Binaries, key),
    ensures
        advance(
            version,
            PendingView {
                goal: Goal::Resources,
                stage: Stage::BinariesIndex,
                build: None,
                binaries: None,
            },
            ReplyView::Body(removed),
        ) == StepView::Failed(ResolveError::MissingResourceIndex),
        advance(
            version,
            PendingView {
                goal: Goal::Binaries,
                stage: Stage::BinariesIndex,
                build: None,
                binaries: None,
            },
            ReplyView::Body(removed),
        ) == StepView::Done(
            OutcomeView::Binaries(
                StoreView {
                    base: version.binaries_base,
                    index: index_of_rows(csv_records(whole), Tree::Binaries)->Ok_0.remove(key),
                },
            ),
        ),
{
    lemma_without(csv_records(whole), Tree::Binaries, key);
    lemma_resources_need_their_entry(version, removed);
}

/// With the entry there, the resolution of the resources goes on to request
/// the file that the entry names, below the binaries endpoint.
pub proof fn lemma_resources_follow_their_entry(version: VersionView, data: Seq<u8>, key: Seq<char>)
    requires
        index_of_rows(csv_records(data), Tree::Binaries) is Ok,
        url_parse(RESOURCE_INDEX@) == Some(key),
        index_of_rows(csv_records(data), Tree::Binaries)->Ok_0.contains_key(key),
    ensures
        advance(
            version,
            PendingView {
                goal: Goal::Resources,
                stage: Stage::BinariesIndex,
                build: None,
                binaries: None,
            },
            ReplyView::Body(data),
        ) == (match url_join(
            version.binaries_base,
            index_of_rows(csv_records(data), Tree::Binaries)->Ok_0[key],
        ) {
            Some(address) => StepView::Request(
                address,
                PendingView {
                    goal: Goal::Resources,
                    stage: Stage::ResourcesIndex,
                    build: None,
                    binaries: None,
                },
            ),
            None => StepView::Failed(ResolveError::Fetch),
        }),
{
}

impl Version {
    pub fn new(
        version_base: String,
        eveclient_path: String,
        binaries_base: String,
        resources_base: String,
        transport: Vec<Layer>,
    ) -> (version: Version)
        ensures
            version@ == (VersionView {
                version_base: version_base@,
                eveclient_path: eveclient_path@,
                binaries_base: binaries_base@,
                resources_base: resources_base@,
                transport: transport@,
            }),
    {
        Version { version_base, eveclient_path, binaries_base, resources_base, transport }
    }

    /// The endpoint below which the manifest and the binaries index lie.
    pub fn version_base(&self) -> (base: &str)
        ensures
            base@ == self@.version_base,
    {
        self.version_base.as_str()
    }

    /// The path of the manifest.
    pub fn eveclient_path(&self) -> (path: &str)
        ensures
            path@ == self@.eveclient_path,
    {
        self.eveclient_path.as_str()
    }

    /// The endpoint of the binaries tree.
    pub fn binaries_base(&self) -> (base: &str)
        ensures
            base@ == self@.binaries_base,
    {
        self.binaries_base.as_str()
    }

    /// The endpoint of the resources tree.
    pub fn resources_base(&self) -> (base: &str)
        ensures
            base@ == self@.resources_base,
    {
        self.resources_base.as_str()
    }

    /// The layers of the transport, in the order in which they were put
    /// together.
    pub fn transport(&self) -> (layers: &Vec<Layer>)
        ensures
            layers@ == self@.transport,
    {
        &self.transport
    }

    /// Starts a resolution of `goal`.
    pub fn begin(&self, goal: Goal) -> (step: Step)
        ensures
            step@ == begin(self@, goal),
            step@ matches StepView::Request(_, pending) ==> on_course(goal, pending),
    {
        match Locator::join(self.version_base.as_str(), self.eveclient_path.as_str()) {
            Some(address) => Step::Request(
                address,
                Pending { goal, stage: Stage::Manifest, build: None, binaries: None },
            ),
            None => Step::Failed(ResolveError::Manifest),
        }
    }

    /// Starts the discovery of the current build. It ends with
    /// [`Outcome::Build`].
    pub fn build(&self) -> (step: Step)
        ensures
            step@ == begin(self@, Goal::Build),
    {
        self.begin(Goal::Build)
    }

    /// Starts the resolution of the binaries tree. It ends with
    /// [`Outcome::Binaries`].
    pub fn binaries(&self) -> (step: Step)
        ensures
            step@ == begin(self@, Goal::Binaries),
    {
        self.begin(Goal::Binaries)
    }

    /// Starts the resolution of the resources tree, which leads through the
    /// binaries tree. It ends with [`Outcome::Resources`].
    pub fn resources(&self) -> (step: Step)
        ensures
            step@ == begin(self@, Goal::Resources),
    {
        self.begin(Goal::Resources)
    }

    /// Starts the resolution of the build and both trees together. It ends
    /// with [`Outcome::Resolved`]. The manifest and the binaries index are
    /// requested once.
    pub fn resolve(&self) -> (step: Step)
        ensures
            step@ == begin(self@, Goal::Client),
    {
        self.begin(Goal::Client)
    }

    /// Goes on with a resolution that waited for `reply`. It stays on its
    /// course: what it waits for next belongs to the same goal, and it ends
    /// with nothing but what that goal asks for.
    pub fn advance(&self, pending: Pending, reply: Reply) -> (step: Step)
        ensures
            step@ == advance(self@, pending@, reply@),
            match step@ {
                StepView::Request(_, next) => on_course(pending@.goal, next),
                StepView::Done(outcome) => fits(pending@.goal, outcome),
                StepView::Failed(_) => true,
            },
    {
        proof {
            use_type_invariant(&pending);
        }
        match pending.stage {
            Stage::Manifest => self.after_manifest(pending.goal, reply),
            Stage::BinariesIndex => self.after_binaries_index(pending.goal, pending.build, reply),
            Stage::ResourcesIndex => self.after_resources_index(
                pending.build,
                pending.binaries,
                reply,
            ),
        }
    }

    fn after_manifest(&self, goal: Goal, reply: Reply) -> (step: Step)
        ensures
            step@ == after_manifest(self@, goal, reply@),
    {
        match reply {
            Reply::Body(data) => match read_build(data.as_slice()) {
                Ok(build) => match goal {
                    Goal::Build => Step::Done(Outcome::Build(build)),
                    _ => {
                        let name = String::from_str(INDEX_PREFIX).concat(build.as_str()).concat(
                            INDEX_SUFFIX,
                        );
                        match Locator::join(self.version_base.as_str(), name.as_str()) {
                            Some(address) => {
                                let build = match goal {
                                    Goal::Client => Some(build),
                                    _ => None,
                                };
                                Step::Request(
                                    address,
                                    Pending {
                                        goal,
                                        stage: Stage::BinariesIndex,
                                        build,
                                        binaries: None,
                                    },
                                )
                            },
                            None => Step::Failed(ResolveError::IndexFetch),
                        }
                    },
                },
                Err(e) => Step::Failed(e),
            },
            _ => Step::Failed(ResolveError::Manifest),
        }
    }

    fn after_binaries_index(&self, goal: Goal, build: Option<String>, reply: Reply) -> (step: Step)
        requires
            goal != Goal::Build,
            build is Some <==> goal == Goal::Client,
        ensures
            step@ == after_binaries_index(
                self@,
                goal,
                match build {
                    Some(build) => Some(build@),
                    None => None,
                },
                reply@,
            ),
    {
        match reply {
            Reply::Body(data) => match AssetIndex::parse(data.as_slice(), Tree::Binaries) {
                Ok(index) => {
                    let binaries = Binaries::new(self.binaries_base.clone(), index);
                    match goal {
                        Goal::Resources | Goal::Client => Version::resources_request(
                            binaries,
                            goal,
                            build,
                        ),
                        _ => Step::Done(Outcome::Binaries(binaries)),
                    }
                },
                Err(e) => Step::Failed(e),
            },
            _ => Step::Failed(ResolveError::IndexFetch),
        }
    }

    fn resources_request(binaries: Binaries, goal: Goal, build: Option<String>) -> (step: Step)
        requires
            goal == Goal::Resources || goal == Goal::Client,
            build is Some <==> goal == Goal::Client,
        ensures
            step@ == resources_request(
                binaries@,
                goal,
                match build {
                    Some(build) => Some(build@),
                    None => None,
                },
            ),
    {
        match Locator::parse(RESOURCE_INDEX) {
            Some(key) => match binaries.get(key) {
                Ok(Some(address)) => {
                    let binaries = match goal {
                        Goal::Client => Some(binaries),
                        _ => None,
                    };
                    Step::Request(
                        address,
                        Pending { goal, stage: Stage::ResourcesIndex, build, binaries },
                    )
                },
                Ok(None) => Step::Failed(ResolveError::MissingResourceIndex),
                Err(e) => Step::Failed(e),
            },
            None => Step::Failed(ResolveError::MissingResourceIndex),
        }
    }

    fn after_resources_index(
        &self,
        build: Option<String>,
        binaries: Option<Binaries>,
        reply: Reply,
    ) -> (step: Step)
        ensures
            step@ == after_resources_index(
                self@,
                match build {
                    Some(build) => Some(build@),
                    None => None,
                },
                match binaries {
                    Some(binaries) => Some(binaries@),
                    None => None,
                },
                reply@,
            ),
    {
        match reply {
            Reply::Body(data) => match AssetIndex::parse(data.as_slice(), Tree::Resources) {
                Ok(index) => {
                    let resources = Resources::new(self.resources_base.clone(), index);
                    match (build, binaries) {
                        (Some(build), Some(binaries)) => Step::Done(
                            Outcome::Resolved(build, binaries, resources),
                        ),
                        _ => Step::Done(Outcome::Resources(resources)),
                    }
                },
                Err(e) => Step::Failed(e),
            },
            Reply::Refused => Step::Failed(ResolveError::Fetch),
            Reply::Interrupted => Step::Failed(ResolveError::IndexFetch),
        }
    }
}

} // verus!
