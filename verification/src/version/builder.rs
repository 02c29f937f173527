//! Configuration: the endpoints of a deployment and the layers of its
//! transport.

use crate::version::Version;
use crate::version::VersionView;
use std::path::PathBuf;
use vstd::prelude::*;
use vstd::string::*;

verus! {

/// `std::path::PathBuf`, which names the cache directory. It is carried
/// through and never looked into.
#[verifier::external_type_specification]
#[verifier::external_body]
pub struct ExPathBuf(PathBuf);

/// One layer of the transport that requests pass through.
#[derive(Debug, PartialEq, Eq)]
pub enum Layer {
    /// A layer of the caller's own, named by a number of the caller's
    /// choice.
    Extra(usize),
    /// Retry with exponential backoff, at most so many times.
    Retry(u32),
    /// Cache responses in this directory.
    Cache(PathBuf),
    /// Trace every request.
    Tracing,
}

/// The endpoints and options that a resolver is made from.
pub struct Builder {
    version_base: String,
    eveclient_path: String,
    binaries_base: String,
    resources_base: String,
    layers: Vec<Layer>,
    retry_times: Option<u32>,
    cache_dir: Option<PathBuf>,
}

/// What a builder holds.
pub struct BuilderView {
    pub version_base: Seq<char>,
    pub eveclient_path: Seq<char>,
    pub binaries_base: Seq<char>,
    pub resources_base: Seq<char>,
    pub layers: Seq<Layer>,
    pub retry_times: Option<u32>,
    pub cache_dir: Option<PathBuf>,
}

impl View for Builder {
    type V = BuilderView;

    closed spec fn view(&self) -> BuilderView {
        BuilderView {
            version_base: self.version_base@,
            eveclient_path: self.eveclient_path@,
            binaries_base: self.binaries_base@,
            resources_base: self.resources_base@,
            layers: self.layers@,
            retry_times: self.retry_times,
            cache_dir: self.cache_dir,
        }
    }
}

pub const INFINITY_VERSION_BASE: &'static str =
    "https://eve-china-version-files.oss-cn-hangzhou.aliyuncs.com/";

pub const INFINITY_MANIFEST: &'static str = "/eveclient_INFINITY.json";

pub const INFINITY_BINARIES_BASE: &'static str = "https://ma79.gdl.netease.com/eve/binaries/";

pub const INFINITY_RESOURCES_BASE: &'static str = "https://ma79.gdl.netease.com/eve/resources/";

pub const TRANQUILITY_VERSION_BASE: &'static str = "https://binaries.eveonline.com/";

pub const TRANQUILITY_MANIFEST: &'static str = "/eveclient_TQ.json";

pub const TRANQUILITY_BINARIES_BASE: &'static str = "https://binaries.eveonline.com/";

pub const TRANQUILITY_RESOURCES_BASE: &'static str = "https://resources.eveonline.com/";

/// The layers of the transport that a builder stands for: the caller's own
/// in the order in which they were added, then retry, then the cache, then
/// tracing, whatever the order in which the options were set.
pub open spec fn transport_of(builder: BuilderView) -> Seq<Layer> {
    builder.layers + (match builder.retry_times {
        Some(times) => seq![Layer::Retry(times)],
        None => seq![],
    }) + (match builder.cache_dir {
        Some(dir) => seq![Layer::Cache(dir)],
        None => seq![],
    }) + seq![Layer::Tracing]
}

impl Builder {
    /// A builder with the given endpoints and no options.
    fn preset(
        version_base: &str,
        eveclient_path: &str,
        binaries_base: &str,
        resources_base: &str,
    ) -> (builder: Builder)
        ensures
            builder@ == (BuilderView {
                version_base: version_base@,
                eveclient_path: eveclient_path@,
                binaries_base: binaries_base@,
                resources_base: resources_base@,
                layers: Seq::empty(),
                retry_times: None,
                cache_dir: None,
            }),
    {
        Builder {
            version_base: String::from_str(version_base),
            eveclient_path: String::from_str(eveclient_path),
            binaries_base: String::from_str(binaries_base),
            resources_base: String::from_str(resources_base),
            layers: Vec::new(),
            retry_times: None,
            cache_dir: None,
        }
    }

    /// The endpoints of the Infinity deployment.
    pub fn infinity() -> (builder: Builder)
        ensures
            builder@ == (BuilderView {
                version_base: INFINITY_VERSION_BASE@,
                eveclient_path: INFINITY_MANIFEST@,
                binaries_base: INFINITY_BINARIES_BASE@,
                resources_base: INFINITY_RESOURCES_BASE@,
                layers: Seq::empty(),
                retry_times: None,
                cache_dir: None,
            }),
    {
        Builder::preset(
            INFINITY_VERSION_BASE,
            INFINITY_MANIFEST,
            INFINITY_BINARIES_BASE,
            INFINITY_RESOURCES_BASE,
        )
    }

    /// The endpoints of the Tranquility deployment.
    pub fn tranquility() -> (builder: Builder)
        ensures
            builder@ == (BuilderView {
                version_base: TRANQUILITY_VERSION_BASE@,
                eveclient_path: TRANQUILITY_MANIFEST@,
                binaries_base: TRANQUILITY_BINARIES_BASE@,
                resources_base: TRANQUILITY_RESOURCES_BASE@,
                layers: Seq::empty(),
                retry_times: None,
                cache_dir: None,
            }),
    {
        Builder::preset(
            TRANQUILITY_VERSION_BASE,
            TRANQUILITY_MANIFEST,
            TRANQUILITY_BINARIES_BASE,
            TRANQUILITY_RESOURCES_BASE,
        )
    }

    /// Makes the resolver, with the layers of its transport in their fixed
    /// order.
    pub fn build(self) -> (version: Version)
        ensures
            version@ == (VersionView {
                version_base: self@.version_base,
                eveclient_path: self@.eveclient_path,
                binaries_base: self@.binaries_base,
                resources_base: self@.resources_base,
                transport: transport_of(self@),
            }),
    {
        let mut layers = self.layers;
        if let Some(times) = self.retry_times {
            layers.push(Layer::Retry(times));
        }
        if let Some(dir) = self.cache_dir {
            layers.push(Layer::Cache(dir));
        }
        layers.push(Layer::Tracing);
        assert(layers@ =~= transport_of(self@));
        Version::new(
            self.version_base,
            self.eveclient_path,
            self.binaries_base,
            self.resources_base,
            layers,
        )
    }

    /// Adds a layer of the caller's own, which `middleware` names.
    pub fn with(&mut self, middleware: usize) -> (builder: &mut Builder)
        ensures
            builder@ == (BuilderView {
                layers: old(self)@.layers.push(Layer::Extra(middleware)),
                ..old(self)@
            }),
            *final(self) == *final(builder),
    {
        self.layers.push(Layer::Extra(middleware));
        self
    }

    /// Has failed requests tried again, `times` times at most.
    pub fn retry(&mut self, times: u32) -> (builder: &mut Builder)
        ensures
            builder@ == (BuilderView { retry_times: Some(times), ..old(self)@ }),
            *final(self) == *final(builder),
    {
        self.retry_times = Some(times);
        self
    }

    /// Has responses cached in the directory `path`.
    pub fn cache_to(&mut self, path: PathBuf) -> (builder: &mut Builder)
        ensures
            builder@ == (BuilderView { cache_dir: Some(path), ..old(self)@ }),
            *final(self) == *final(builder),
    {
        self.cache_dir = Some(path);
        self
    }
}

} // verus!
