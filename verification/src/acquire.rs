//! The acquisition of a cached environment: reuse the environment that the
//! cache holds for a base interpreter and a resolution, or build it in
//! scratch space and publish it.
//!
//! The acquisition decides; its caller acts. The caller performs the action
//! that is pending, reports the outcome, and is told the next action, until
//! the action is to finish or to fail.

use vstd::prelude::*;

use crate::digest::{interpreter_digest, is_digest, resolution_digest};
use crate::entry::{environment_key, key_is_well_formed, CacheEntry, CacheKey};
use crate::error::ProjectError;
use crate::interpreter::{base_lookup, base_lookup_for, is_own_base, BaseLookup};
use crate::protocol::{
    derived, scratch_venv, Action, ActionView, CachedEnvironment, CachedEnvironmentView, Event,
    EventView, Modifications, Outcome, OutcomeView, VenvRequest,
};

verus! {

/// How far an acquisition has come, with what it has learned so far.
#[derive(Clone, Debug, PartialEq, Eq)]
pub enum Stage {
    /// The base executable of the interpreter is being found.
    ResolvingBase,
    /// The interpreter at the base executable is being queried.
    QueryingBase { base: String },
    /// The requirements are being resolved with the base interpreter.
    Resolving { interpreter: String },
    /// The canonical path of the base interpreter is being found.
    Canonicalizing { interpreter: String, resolution: String },
    /// The cache entry is being followed to its archive.
    ResolvingLink { interpreter: String, entry: CacheEntry },
    /// The environment in the archive is being loaded.
    LoadingCached { interpreter: String, entry: CacheEntry, root: String },
    /// The cache holds no usable environment: a scratch directory is being
    /// made to build one.
    CreatingScratch { interpreter: String, entry: CacheEntry },
    /// The virtual environment is being created in the scratch directory.
    CreatingVenv { interpreter: String, entry: CacheEntry, scratch: String },
    /// The resolved distributions are being installed.
    Syncing { entry: CacheEntry, scratch: String },
    /// The scratch directory is being moved into the cache.
    Persisting { entry: CacheEntry, scratch: String },
    /// The environment that was published is being loaded.
    LoadingPublished { entry: CacheEntry, root: String },
    /// The environment is there.
    Ready { entry: CacheEntry, root: String, reused: bool },
    /// The acquisition has failed.
    Failed { error: ProjectError },
}

/// What a [`Stage`] is.
pub enum StageView {
    ResolvingBase,
    QueryingBase { base: Seq<char> },
    Resolving { interpreter: Seq<char> },
    Canonicalizing { interpreter: Seq<char>, resolution: Seq<char> },
    ResolvingLink { interpreter: Seq<char>, entry: CacheKey },
    LoadingCached { interpreter: Seq<char>, entry: CacheKey, root: Seq<char> },
    CreatingScratch { interpreter: Seq<char>, entry: CacheKey },
    CreatingVenv { interpreter: Seq<char>, entry: CacheKey, scratch: Seq<char> },
    Syncing { entry: CacheKey, scratch: Seq<char> },
    Persisting { entry: CacheKey, scratch: Seq<char> },
    LoadingPublished { entry: CacheKey, root: Seq<char> },
    Ready { entry: CacheKey, root: Seq<char>, reused: bool },
    Failed { error: ProjectError },
}

impl View for Stage {
    type V = StageView;

    open spec fn view(&self) -> StageView {
        match self {
            Stage::ResolvingBase => StageView::ResolvingBase,
            Stage::QueryingBase { base } => StageView::QueryingBase { base: base@ },
            Stage::Resolving { interpreter } => StageView::Resolving { interpreter: interpreter@ },
            Stage::Canonicalizing { interpreter, resolution } => StageView::Canonicalizing {
                interpreter: interpreter@,
                resolution: resolution@,
            },
            Stage::ResolvingLink { interpreter, entry } => StageView::ResolvingLink {
                interpreter: interpreter@,
                entry: entry@,
            },
            Stage::LoadingCached { interpreter, entry, root } => StageView::LoadingCached {
                interpreter: interpreter@,
                entry: entry@,
                root: root@,
            },
            Stage::CreatingScratch { interpreter, entry } => StageView::CreatingScratch {
                interpreter: interpreter@,
                entry: entry@,
            },
            Stage::CreatingVenv { interpreter, entry, scratch } => StageView::CreatingVenv {
                interpreter: interpreter@,
                entry: entry@,
                scratch: scratch@,
            },
            Stage::Syncing { entry, scratch } => StageView::Syncing {
                entry: entry@,
                scratch: scratch@,
            },
            Stage::Persisting { entry, scratch } => StageView::Persisting {
                entry: entry@,
                scratch: scratch@,
            },
            Stage::LoadingPublished { entry, root } => StageView::LoadingPublished {
                entry: entry@,
                root: root@,
            },
            Stage::Ready { entry, root, reused } => StageView::Ready {
                entry: entry@,
                root: root@,
                reused: *reused,
            },
            Stage::Failed { error } => StageView::Failed { error: *error },
        }
    }
}

/// The acquisition of the cached environment for one request.
#[derive(Clone, Debug, PartialEq, Eq)]
pub struct Acquisition {
    refresh: bool,
    lookup: BaseLookup,
    requested: String,
    stage: Stage,
}

/// What an [`Acquisition`] is: the request, and how far it has come.
pub struct AcquisitionView {
    /// Whether the caller asked for the cache to be passed by.
    pub refresh: bool,
    /// How the base of the interpreter is found.
    pub lookup: BaseLookup,
    /// The executable of the interpreter that the caller has.
    pub requested: Seq<char>,
    /// How far the acquisition has come.
    pub stage: StageView,
}

impl View for Acquisition {
    type V = AcquisitionView;

    closed spec fn view(&self) -> AcquisitionView {
        AcquisitionView {
            refresh: self.refresh,
            lookup: self.lookup,
            requested: self.requested@,
            stage: self.stage@,
        }
    }
}

/// The cache entry that a stage works on, once it is known.
pub open spec fn entry_of(stage: StageView) -> Option<CacheKey> {
    match stage {
        StageView::ResolvingLink { interpreter, entry } => Some(entry),
        StageView::LoadingCached { interpreter, entry, root } => Some(entry),
        StageView::CreatingScratch { interpreter, entry } => Some(entry),
        StageView::CreatingVenv { interpreter, entry, scratch } => Some(entry),
        StageView::Syncing { entry, scratch } => Some(entry),
        StageView::Persisting { entry, scratch } => Some(entry),
        StageView::LoadingPublished { entry, root } => Some(entry),
        StageView::Ready { entry, root, reused } => Some(entry),
        _ => None,
    }
}

/// The scratch directory that a stage builds in, once it is made.
pub open spec fn scratch_of(stage: StageView) -> Option<Seq<char>> {
    match stage {
        StageView::CreatingVenv { interpreter, entry, scratch } => Some(scratch),
        StageView::Syncing { entry, scratch } => Some(scratch),
        StageView::Persisting { entry, scratch } => Some(scratch),
        _ => None,
    }
}

/// The digests that an acquisition holds have the shape of digests.
pub open spec fn is_well_formed(a: AcquisitionView) -> bool {
    match a.stage {
        StageView::Canonicalizing { interpreter, resolution } => is_digest(resolution),
        _ => match entry_of(a.stage) {
            Some(entry) => key_is_well_formed(entry),
            None => true,
        },
    }
}

/// The digest that an event brings, if it brings one, has the shape of a
/// digest.
pub open spec fn event_is_well_formed(event: EventView) -> bool {
    match event {
        EventView::Resolved { digest } => is_digest(digest),
        EventView::Canonicalized { digest } => is_digest(digest),
        _ => true,
    }
}

/// An acquisition at its start.
pub open spec fn started(
    requested: Seq<char>,
    refresh: bool,
    symlink_environments: bool,
) -> AcquisitionView {
    AcquisitionView {
        refresh,
        lookup: base_lookup_for(symlink_environments),
        requested,
        stage: StageView::ResolvingBase,
    }
}

/// The stage that follows when the action of a stage has failed. A failure
/// to find or to load a cached environment is a miss: the environment is
/// built. Any other failure ends the acquisition with the error as it came.
pub open spec fn after_failure(stage: StageView, error: ProjectError) -> StageView {
    match stage {
        StageView::ResolvingLink { interpreter, entry } => StageView::CreatingScratch {
            interpreter,
            entry,
        },
        StageView::LoadingCached { interpreter, entry, root } => StageView::CreatingScratch {
            interpreter,
            entry,
        },
        StageView::Ready { entry, root, reused } => stage,
        StageView::Failed { error: first } => stage,
        _ => StageView::Failed { error },
    }
}

/// The stage that follows an event. An event that does not answer the
/// action of the stage changes nothing.
pub open spec fn after_event(a: AcquisitionView, event: EventView) -> StageView {
    match (a.stage, event) {
        (_, EventView::Failed { error }) => after_failure(a.stage, error),
        (StageView::ResolvingBase, EventView::BaseResolved { base, is_current }) => if is_current {
            StageView::Resolving { interpreter: a.requested }
        } else {
            StageView::QueryingBase { base }
        },
        (StageView::QueryingBase { base }, EventView::BaseQueried { sys_executable }) => {
            StageView::Resolving { interpreter: sys_executable }
        },
        (StageView::Resolving { interpreter }, EventView::Resolved { digest }) => {
            StageView::Canonicalizing { interpreter, resolution: digest }
        },
        (
            StageView::Canonicalizing { interpreter, resolution },
            EventView::Canonicalized { digest },
        ) => if a.refresh {
            StageView::CreatingScratch { interpreter, entry: environment_key(digest, resolution) }
        } else {
            StageView::ResolvingLink { interpreter, entry: environment_key(digest, resolution) }
        },
        (StageView::ResolvingLink { interpreter, entry }, EventView::LinkResolved { root }) => {
            StageView::LoadingCached { interpreter, entry, root }
        },
        (StageView::LoadingCached { interpreter, entry, root }, EventView::EnvironmentLoaded) => {
            StageView::Ready { entry, root, reused: true }
        },
        (
            StageView::CreatingScratch { interpreter, entry },
            EventView::ScratchCreated { directory },
        ) => StageView::CreatingVenv { interpreter, entry, scratch: directory },
        (StageView::CreatingVenv { interpreter, entry, scratch }, EventView::VenvCreated) => {
            StageView::Syncing { entry, scratch }
        },
        (StageView::Syncing { entry, scratch }, EventView::Synced) => StageView::Persisting {
            entry,
            scratch,
        },
        (StageView::Persisting { entry, scratch }, EventView::Persisted { root }) => {
            StageView::LoadingPublished { entry, root }
        },
        (StageView::LoadingPublished { entry, root }, EventView::EnvironmentLoaded) => {
            StageView::Ready { entry, root, reused: false }
        },
        _ => a.stage,
    }
}

/// The acquisition after an event.
pub open spec fn advanced(a: AcquisitionView, event: EventView) -> AcquisitionView {
    AcquisitionView { stage: after_event(a, event), ..a }
}

/// The action that an acquisition is waiting for.
pub open spec fn pending_action(a: AcquisitionView) -> ActionView {
    match a.stage {
        StageView::ResolvingBase => ActionView::FindBase {
            interpreter: a.requested,
            lookup: a.lookup,
        },
        StageView::QueryingBase { base } => ActionView::QueryInterpreter { executable: base },
        StageView::Resolving { interpreter } => ActionView::Resolve { interpreter },
        StageView::Canonicalizing { interpreter, resolution } => ActionView::Canonicalize {
            executable: interpreter,
        },
        StageView::ResolvingLink { interpreter, entry } => ActionView::ResolveLink { entry },
        StageView::LoadingCached { interpreter, entry, root } => ActionView::LoadEnvironment {
            root,
        },
        StageView::CreatingScratch { interpreter, entry } => ActionView::CreateScratch,
        StageView::CreatingVenv { interpreter, entry, scratch } => ActionView::CreateVenv {
            request: scratch_venv(scratch, interpreter),
        },
        StageView::Syncing { entry, scratch } => ActionView::Sync {
            environment: scratch,
            modifications: Modifications::Exact,
        },
        StageView::Persisting { entry, scratch } => ActionView::Persist { scratch, entry },
        StageView::LoadingPublished { entry, root } => ActionView::LoadEnvironment { root },
        StageView::Ready { entry, root, reused } => ActionView::Finish {
            environment: CachedEnvironmentView { entry, root, reused },
        },
        StageView::Failed { error } => ActionView::Fail { error },
    }
}

/// The stage that follows when the action of a stage has failed.
fn fail_stage(stage: Stage, error: ProjectError) -> (next: Stage)
    ensures
        next@ == after_failure(stage@, error),
{
    match stage {
        Stage::ResolvingLink { interpreter, entry } => Stage::CreatingScratch {
            interpreter,
            entry,
        },
        Stage::LoadingCached { interpreter, entry, root } => Stage::CreatingScratch {
            interpreter,
            entry,
        },
        Stage::Ready { entry, root, reused } => Stage::Ready { entry, root, reused },
        Stage::Failed { error: first } => Stage::Failed { error: first },
        _ => Stage::Failed { error },
    }
}

impl Acquisition {
    /// Starts the acquisition of the environment for the interpreter at
    /// `sys_executable`. With `refresh` the cache is not looked into, and the
    /// environment is built anew. `symlink_environments` says whether virtual
    /// environments on this platform link to their interpreter.
    pub fn new(sys_executable: String, refresh: bool, symlink_environments: bool) -> (acquisition:
        Acquisition)
        ensures
            acquisition@ == started(sys_executable@, refresh, symlink_environments),
            is_well_formed(acquisition@),
    {
        Acquisition {
            refresh,
            lookup: base_lookup(symlink_environments),
            requested: sys_executable,
            stage: Stage::ResolvingBase,
        }
    }

    /// How far the acquisition has come.
    pub fn stage(&self) -> (stage: &Stage)
        ensures
            stage@ == self@.stage,
    {
        &self.stage
    }

    /// Whether the acquisition has come to its end, with an environment or
    /// with an error.
    pub fn is_finished(&self) -> (finished: bool)
        ensures
            finished == (self@.stage is Ready || self@.stage is Failed),
    {
        match &self.stage {
            Stage::Ready { .. } => true,
            Stage::Failed { .. } => true,
            _ => false,
        }
    }

    /// What the acquisition has come to: the environment, or the error that
    /// ended it, or nothing yet.
    pub fn result(&self) -> (result: Option<Result<CachedEnvironment, ProjectError>>)
        ensures
            result matches Some(Ok(environment)) ==> self@.stage is Ready && pending_action(self@)
                == (ActionView::Finish { environment: environment@ }),
            result matches Some(Err(error)) ==> self@.stage == (StageView::Failed { error }),
            result is None <==> !(self@.stage is Ready || self@.stage is Failed),
            self@.stage is Ready ==> result matches Some(Ok(_)),
            self@.stage is Failed ==> result matches Some(Err(_)),
    {
        match &self.stage {
            Stage::Ready { entry, root, reused } => Some(
                Ok(CachedEnvironment::new(entry.duplicate(), root.clone(), *reused)),
            ),
            Stage::Failed { error } => Some(Err(*error)),
            _ => None,
        }
    }

    /// The action that the acquisition is waiting for.
    pub fn pending(&self) -> (action: Action)
        ensures
            action@ == pending_action(self@),
    {
        match &self.stage {
            Stage::ResolvingBase => Action::FindBase {
                interpreter: self.requested.clone(),
                lookup: self.lookup,
            },
            Stage::QueryingBase { base } => Action::QueryInterpreter { executable: base.clone() },
            Stage::Resolving { interpreter } => Action::Resolve {
                interpreter: interpreter.clone(),
            },
            Stage::Canonicalizing { interpreter, .. } => Action::Canonicalize {
                executable: interpreter.clone(),
            },
            Stage::ResolvingLink { entry, .. } => Action::ResolveLink { entry: entry.duplicate() },
            Stage::LoadingCached { root, .. } => Action::LoadEnvironment { root: root.clone() },
            Stage::CreatingScratch { .. } => Action::CreateScratch,
            Stage::CreatingVenv { interpreter, scratch, .. } => Action::CreateVenv {
                request: VenvRequest {
                    location: scratch.clone(),
                    interpreter: interpreter.clone(),
                    prompt: None,
                    system_site_packages: false,
                    remove_existing: true,
                    relocatable: true,
                    seed: false,
                    upgradeable: false,
                },
            },
            Stage::Syncing { scratch, .. } => Action::Sync {
                environment: scratch.clone(),
                modifications: Modifications::Exact,
            },
            Stage::Persisting { entry, scratch } => Action::Persist {
                scratch: scratch.clone(),
                entry: entry.duplicate(),
            },
            Stage::LoadingPublished { root, .. } => Action::LoadEnvironment { root: root.clone() },
            Stage::Ready { entry, root, reused } => Action::Finish {
                environment: CachedEnvironment::new(entry.duplicate(), root.clone(), *reused),
            },
            Stage::Failed { error } => Action::Fail { error: *error },
        }
    }

    /// Takes an event in. The acquisition moves on where the event answers
    /// the action it was waiting for, and stays as it is where it does not.
    pub fn advance(self, event: Event) -> (next: Acquisition)
        ensures
            next@ == advanced(self@, event@),
            is_well_formed(self@) && event_is_well_formed(event@) ==> is_well_formed(next@),
    {
        let Acquisition { refresh, lookup, requested, stage } = self;
        let stage = match (stage, event) {
            (stage, Event::Failed { error }) => fail_stage(stage, error),
            (Stage::ResolvingBase, Event::BaseResolved { base, is_current }) => {
                if is_current {
                    Stage::Resolving { interpreter: requested.clone() }
                } else {
                    Stage::QueryingBase { base }
                }
            },
            (Stage::QueryingBase { base }, Event::BaseQueried { sys_executable }) => {
                Stage::Resolving { interpreter: sys_executable }
            },
            (Stage::Resolving { interpreter }, Event::Resolved { digest }) => {
                Stage::Canonicalizing { interpreter, resolution: digest }
            },
            (Stage::Canonicalizing { interpreter, resolution }, Event::Canonicalized { digest }) => {
                let entry = CacheEntry::new(digest, resolution);
                if refresh {
                    Stage::CreatingScratch { interpreter, entry }
                } else {
                    Stage::ResolvingLink { interpreter, entry }
                }
            },
            (Stage::ResolvingLink { interpreter, entry }, Event::LinkResolved { root }) => {
                Stage::LoadingCached { interpreter, entry, root }
            },
            (Stage::LoadingCached { interpreter, entry, root }, Event::EnvironmentLoaded) => {
                Stage::Ready { entry, root, reused: true }
            },
            (Stage::CreatingScratch { interpreter, entry }, Event::ScratchCreated { directory }) => {
                Stage::CreatingVenv { interpreter, entry, scratch: directory }
            },
            (Stage::CreatingVenv { interpreter, entry, scratch }, Event::VenvCreated) => {
                Stage::Syncing { entry, scratch }
            },
            (Stage::Syncing { entry, scratch }, Event::Synced) => Stage::Persisting {
                entry,
                scratch,
            },
            (Stage::Persisting { entry, scratch }, Event::Persisted { root }) => {
                Stage::LoadingPublished { entry, root }
            },
            (Stage::LoadingPublished { entry, root }, Event::EnvironmentLoaded) => Stage::Ready {
                entry,
                root,
                reused: false,
            },
            (stage, _) => stage,
        };
        Acquisition { refresh, lookup, requested, stage }
    }

    /// What the acquisition derives from an outcome: whether a base that was
    /// found is the interpreter at hand, the digest of a resolution, the
    /// digest of a canonical path.
    pub fn derive(&self, outcome: Outcome) -> (event: Event)
        ensures
            event@ == derived(self@.requested, outcome@),
            event_is_well_formed(event@),
            outcome@ == (OutcomeView::BaseResolved { base: self@.requested }) ==> event@ == (
                EventView::BaseResolved { base: self@.requested, is_current: true }),
    {
        match outcome {
            Outcome::BaseResolved { base } => {
                let is_current = is_own_base(self.requested.as_str(), base.as_str());
                Event::BaseResolved { base, is_current }
            },
            Outcome::BaseQueried { sys_executable } => Event::BaseQueried { sys_executable },
            Outcome::Resolved { distributions } => Event::Resolved {
                digest: resolution_digest(distributions.as_slice()),
            },
            Outcome::Canonicalized { path } => Event::Canonicalized {
                digest: interpreter_digest(path.as_str()),
            },
            Outcome::LinkResolved { root } => Event::LinkResolved { root },
            Outcome::EnvironmentLoaded => Event::EnvironmentLoaded,
            Outcome::ScratchCreated { directory } => Event::ScratchCreated { directory },
            Outcome::VenvCreated => Event::VenvCreated,
            Outcome::Synced => Event::Synced,
            Outcome::Persisted { root } => Event::Persisted { root },
            Outcome::Failed { error } => Event::Failed { error },
        }
    }

    /// Takes the outcome of the pending action in and says what to do next.
    ///
    /// Where the base that was found is the executable of the interpreter at
    /// hand, the next action is to resolve with that interpreter: none is
    /// queried.
    pub fn step(self, outcome: Outcome) -> (next: (Acquisition, Action))
        ensures
            next.0@ == advanced(self@, derived(self@.requested, outcome@)),
            next.1@ == pending_action(next.0@),
            is_well_formed(self@) ==> is_well_formed(next.0@),
            self@.stage is ResolvingBase && outcome@ == (OutcomeView::BaseResolved {
                base: self@.requested,
            }) ==> next.1@ == (ActionView::Resolve { interpreter: self@.requested }),
    {
        let event = self.derive(outcome);
        let acquisition = self.advance(event);
        let action = acquisition.pending();
        (acquisition, action)
    }
}

} // verus!
