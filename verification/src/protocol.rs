//! The values that pass between the acquisition of a cached environment and
//! the caller that does its work: the actions that the acquisition asks for,
//! and the outcomes that the caller reports back.

use vstd::prelude::*;

use crate::digest::{path_digest_of, resolution_digest_of};
use crate::distribution::{ids, Distribution, DistributionId};
use crate::entry::{CacheEntry, CacheKey};
use crate::error::ProjectError;
use crate::interpreter::{same_path, BaseLookup};

verus! {

/// How far an installation may change an environment.
#[derive(Clone, Copy, Debug, PartialEq, Eq, Structural)]
pub enum Modifications {
    /// Install what is missing and leave the rest.
    Sufficient,
    /// Make the environment hold the resolved distributions and nothing
    /// else: what is not among them is removed.
    Exact,
}

/// How a virtual environment is to be created.
#[derive(Clone, Debug, PartialEq, Eq)]
pub struct VenvRequest {
    /// The directory in which the environment is created.
    pub location: String,
    /// The executable of the interpreter that the environment is for.
    pub interpreter: String,
    /// The prompt of the environment, if it is to have one of its own.
    pub prompt: Option<String>,
    /// Whether the environment sees the system's packages.
    pub system_site_packages: bool,
    /// Whether a directory that is in the way is removed.
    pub remove_existing: bool,
    /// Whether the environment can be moved.
    pub relocatable: bool,
    /// Whether seed packages are installed.
    pub seed: bool,
    /// Whether the interpreter of the environment can be upgraded.
    pub upgradeable: bool,
}

/// What a [`VenvRequest`] is.
pub struct VenvRequestView {
    pub location: Seq<char>,
    pub interpreter: Seq<char>,
    pub prompt: Option<Seq<char>>,
    pub system_site_packages: bool,
    pub remove_existing: bool,
    pub relocatable: bool,
    pub seed: bool,
    pub upgradeable: bool,
}

impl View for VenvRequest {
    type V = VenvRequestView;

    open spec fn view(&self) -> VenvRequestView {
        VenvRequestView {
            location: self.location@,
            interpreter: self.interpreter@,
            prompt: match self.prompt {
                Some(prompt) => Some(prompt@),
                None => None,
            },
            system_site_packages: self.system_site_packages,
            remove_existing: self.remove_existing,
            relocatable: self.relocatable,
            seed: self.seed,
            upgradeable: self.upgradeable,
        }
    }
}

/// The request for the environment that a cache entry is built in: in the
/// scratch directory, for the base interpreter, without a prompt of its own,
/// in place of whatever is there, without the system's packages, movable.
pub open spec fn scratch_venv(location: Seq<char>, interpreter: Seq<char>) -> VenvRequestView {
    VenvRequestView {
        location,
        interpreter,
        prompt: None,
        system_site_packages: false,
        remove_existing: true,
        relocatable: true,
        seed: false,
        upgradeable: false,
    }
}

/// An environment in the cache: the directory of its archive, and the entry
/// that points at it. It is shared by every request with the same base
/// interpreter and the same resolution, so nothing here writes to it.
#[derive(Clone, Debug, PartialEq, Eq)]
pub struct CachedEnvironment {
    entry: CacheEntry,
    root: String,
    reused: bool,
}

/// What a [`CachedEnvironment`] is.
pub struct CachedEnvironmentView {
    pub entry: CacheKey,
    pub root: Seq<char>,
    pub reused: bool,
}

impl View for CachedEnvironment {
    type V = CachedEnvironmentView;

    closed spec fn view(&self) -> CachedEnvironmentView {
        CachedEnvironmentView { entry: self.entry@, root: self.root@, reused: self.reused }
    }
}

impl CachedEnvironment {
    /// The environment in the archive at `root` that `entry` points at. It
    /// was found in the cache (`reused`) or has just been built.
    pub fn new(entry: CacheEntry, root: String, reused: bool) -> (environment: CachedEnvironment)
        ensures
            environment@ == (CachedEnvironmentView { entry: entry@, root: root@, reused }),
    {
        CachedEnvironment { entry, root, reused }
    }

    /// The entry that points at the environment.
    pub fn entry(&self) -> (entry: &CacheEntry)
        ensures
            entry@ == self@.entry,
    {
        &self.entry
    }

    /// The directory in which the environment is rooted.
    pub fn root(&self) -> (root: &str)
        ensures
            root@ == self@.root,
    {
        self.root.as_str()
    }

    /// Whether the environment was found in the cache, and not built for
    /// this request.
    pub fn reused(&self) -> (reused: bool)
        ensures
            reused == self@.reused,
    {
        self.reused
    }
}

/// What the caller is asked to do next.
#[derive(Clone, Debug, PartialEq, Eq)]
pub enum Action {
    /// Find the base executable of the interpreter.
    FindBase { interpreter: String, lookup: BaseLookup },
    /// Query the interpreter at this executable.
    QueryInterpreter { executable: String },
    /// Resolve the requirements with this interpreter.
    Resolve { interpreter: String },
    /// Find the canonical path of this executable.
    Canonicalize { executable: String },
    /// Follow the entry to the archive that it points at.
    ResolveLink { entry: CacheEntry },
    /// Load the environment that is rooted at this directory.
    LoadEnvironment { root: String },
    /// Make a scratch directory.
    CreateScratch,
    /// Create a virtual environment.
    CreateVenv { request: VenvRequest },
    /// Install the resolved distributions into the environment that was
    /// created in this directory.
    Sync { environment: String, modifications: Modifications },
    /// Move the scratch directory into the cache and point the entry at it.
    Persist { scratch: String, entry: CacheEntry },
    /// Hand out this environment.
    Finish { environment: CachedEnvironment },
    /// Give up with this error.
    Fail { error: ProjectError },
}

/// What an [`Action`] is.
pub enum ActionView {
    FindBase { interpreter: Seq<char>, lookup: BaseLookup },
    QueryInterpreter { executable: Seq<char> },
    Resolve { interpreter: Seq<char> },
    Canonicalize { executable: Seq<char> },
    ResolveLink { entry: CacheKey },
    LoadEnvironment { root: Seq<char> },
    CreateScratch,
    CreateVenv { request: VenvRequestView },
    Sync { environment: Seq<char>, modifications: Modifications },
    Persist { scratch: Seq<char>, entry: CacheKey },
    Finish { environment: CachedEnvironmentView },
    Fail { error: ProjectError },
}

impl View for Action {
    type V = ActionView;

    open spec fn view(&self) -> ActionView {
        match self {
            Action::FindBase { interpreter, lookup } => ActionView::FindBase {
                interpreter: interpreter@,
                lookup: *lookup,
            },
            Action::QueryInterpreter { executable } => ActionView::QueryInterpreter {
                executable: executable@,
            },
            Action::Resolve { interpreter } => ActionView::Resolve { interpreter: interpreter@ },
            Action::Canonicalize { executable } => ActionView::Canonicalize {
                executable: executable@,
            },
            Action::ResolveLink { entry } => ActionView::ResolveLink { entry: entry@ },
            Action::LoadEnvironment { root } => ActionView::LoadEnvironment { root: root@ },
            Action::CreateScratch => ActionView::CreateScratch,
            Action::CreateVenv { request } => ActionView::CreateVenv { request: request@ },
            Action::Sync { environment, modifications } => ActionView::Sync {
                environment: environment@,
                modifications: *modifications,
            },
            Action::Persist { scratch, entry } => ActionView::Persist {
                scratch: scratch@,
                entry: entry@,
            },
            Action::Finish { environment } => ActionView::Finish { environment: environment@ },
            Action::Fail { error } => ActionView::Fail { error: *error },
        }
    }
}

/// What the caller reports of the action it was asked for.
#[derive(Clone, Debug, PartialEq, Eq)]
pub enum Outcome {
    /// The base executable of the interpreter was found.
    BaseResolved { base: String },
    /// The interpreter was queried, and this is its executable.
    BaseQueried { sys_executable: String },
    /// The requirements were resolved to these distributions.
    Resolved { distributions: Vec<Distribution> },
    /// The canonical path of the executable was found.
    Canonicalized { path: String },
    /// The entry points at the archive in this directory.
    LinkResolved { root: String },
    /// The environment was loaded.
    EnvironmentLoaded,
    /// A scratch directory was made.
    ScratchCreated { directory: String },
    /// The virtual environment was created.
    VenvCreated,
    /// The distributions were installed.
    Synced,
    /// The scratch directory was moved into the cache, to this directory.
    Persisted { root: String },
    /// The action failed.
    Failed { error: ProjectError },
}

/// What an [`Outcome`] is.
pub enum OutcomeView {
    BaseResolved { base: Seq<char> },
    BaseQueried { sys_executable: Seq<char> },
    Resolved { distributions: Seq<DistributionId> },
    Canonicalized { path: Seq<char> },
    LinkResolved { root: Seq<char> },
    EnvironmentLoaded,
    ScratchCreated { directory: Seq<char> },
    VenvCreated,
    Synced,
    Persisted { root: Seq<char> },
    Failed { error: ProjectError },
}

impl View for Outcome {
    type V = OutcomeView;

    open spec fn view(&self) -> OutcomeView {
        match self {
            Outcome::BaseResolved { base } => OutcomeView::BaseResolved { base: base@ },
            Outcome::BaseQueried { sys_executable } => OutcomeView::BaseQueried {
                sys_executable: sys_executable@,
            },
            Outcome::Resolved { distributions } => OutcomeView::Resolved {
                distributions: ids(distributions@),
            },
            Outcome::Canonicalized { path } => OutcomeView::Canonicalized { path: path@ },
            Outcome::LinkResolved { root } => OutcomeView::LinkResolved { root: root@ },
            Outcome::EnvironmentLoaded => OutcomeView::EnvironmentLoaded,
            Outcome::ScratchCreated { directory } => OutcomeView::ScratchCreated {
                directory: directory@,
            },
            Outcome::VenvCreated => OutcomeView::VenvCreated,
            Outcome::Synced => OutcomeView::Synced,
            Outcome::Persisted { root } => OutcomeView::Persisted { root: root@ },
            Outcome::Failed { error } => OutcomeView::Failed { error: *error },
        }
    }
}

/// An outcome with what the acquisition derives from it: whether the base
/// that was found is the interpreter at hand, and the digests of the
/// resolution and of the canonical path.
#[derive(Clone, Debug, PartialEq, Eq)]
pub enum Event {
    BaseResolved { base: String, is_current: bool },
    BaseQueried { sys_executable: String },
    Resolved { digest: String },
    Canonicalized { digest: String },
    LinkResolved { root: String },
    EnvironmentLoaded,
    ScratchCreated { directory: String },
    VenvCreated,
    Synced,
    Persisted { root: String },
    Failed { error: ProjectError },
}

/// What an [`Event`] is.
pub enum EventView {
    BaseResolved { base: Seq<char>, is_current: bool },
    BaseQueried { sys_executable: Seq<char> },
    Resolved { digest: Seq<char> },
    Canonicalized { digest: Seq<char> },
    LinkResolved { root: Seq<char> },
    EnvironmentLoaded,
    ScratchCreated { directory: Seq<char> },
    VenvCreated,
    Synced,
    Persisted { root: Seq<char> },
    Failed { error: ProjectError },
}

impl View for Event {
    type V = EventView;

    open spec fn view(&self) -> EventView {
        match self {
            Event::BaseResolved { base, is_current } => EventView::BaseResolved {
                base: base@,
                is_current: *is_current,
            },
            Event::BaseQueried { sys_executable } => EventView::BaseQueried {
                sys_executable: sys_executable@,
            },
            Event::Resolved { digest } => EventView::Resolved { digest: digest@ },
            Event::Canonicalized { digest } => EventView::Canonicalized { digest: digest@ },
            Event::LinkResolved { root } => EventView::LinkResolved { root: root@ },
            Event::EnvironmentLoaded => EventView::EnvironmentLoaded,
            Event::ScratchCreated { directory } => EventView::ScratchCreated {
                directory: directory@,
            },
            Event::VenvCreated => EventView::VenvCreated,
            Event::Synced => EventView::Synced,
            Event::Persisted { root } => EventView::Persisted { root: root@ },
            Event::Failed { error } => EventView::Failed { error: *error },
        }
    }
}

/// The event that an outcome gives, for an acquisition that was asked for
/// the interpreter at `requested`.
pub open spec fn derived(requested: Seq<char>, outcome: OutcomeView) -> EventView {
    match outcome {
        OutcomeView::BaseResolved { base } => EventView::BaseResolved {
            base,
            is_current: same_path(base, requested),
        },
        OutcomeView::BaseQueried { sys_executable } => EventView::BaseQueried { sys_executable },
        OutcomeView::Resolved { distributions } => EventView::Resolved {
            digest: resolution_digest_of(distributions),
        },
        OutcomeView::Canonicalized { path } => EventView::Canonicalized {
            digest: path_digest_of(path),
        },
        OutcomeView::LinkResolved { root } => EventView::LinkResolved { root },
        OutcomeView::EnvironmentLoaded => EventView::EnvironmentLoaded,
        OutcomeView::ScratchCreated { directory } => EventView::ScratchCreated { directory },
        OutcomeView::VenvCreated => EventView::VenvCreated,
        OutcomeView::Synced => EventView::Synced,
        OutcomeView::Persisted { root } => EventView::Persisted { root },
        OutcomeView::Failed { error } => EventView::Failed { error },
    }
}

} // verus!
