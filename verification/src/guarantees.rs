//! What holds of every acquisition, whatever its caller reports.

use vstd::prelude::*;

use crate::acquire::{
    advanced, entry_of, is_well_formed, pending_action, scratch_of, started, AcquisitionView,
    StageView,
};
use crate::entry::{environment_key, lemma_logical_path_tells_keys_apart, logical_path_of};
use crate::error::ProjectError;
use crate::protocol::{ActionView, EventView};

verus! {

/// The acquisition after a run of events, taken in one after the other.
pub open spec fn after_all(a: AcquisitionView, events: Seq<EventView>) -> AcquisitionView
    decreases events.len(),
{
    if events.len() == 0 {
        a
    } else {
        advanced(after_all(a, events.drop_last()), events.last())
    }
}

/// The stage looks into the cache.
pub open spec fn looks_up(stage: StageView) -> bool {
    stage is ResolvingLink || stage is LoadingCached
}

/// The stage is an end: nothing follows it.
pub open spec fn is_end(stage: StageView) -> bool {
    stage is Ready || stage is Failed
}

/// How far a stage is from the start. Every stage that follows another is
/// further.
pub open spec fn progress(stage: StageView) -> nat {
    match stage {
        StageView::ResolvingBase => 0,
        StageView::QueryingBase { .. } => 1,
        StageView::Resolving { .. } => 2,
        StageView::Canonicalizing { .. } => 3,
        StageView::ResolvingLink { .. } => 4,
        StageView::LoadingCached { .. } => 5,
        StageView::CreatingScratch { .. } => 6,
        StageView::CreatingVenv { .. } => 7,
        StageView::Syncing { .. } => 8,
        StageView::Persisting { .. } => 9,
        StageView::LoadingPublished { .. } => 10,
        StageView::Ready { .. } => 11,
        StageView::Failed { .. } => 11,
    }
}

/// A cache entry that cannot be followed, or whose archive cannot be
/// loaded, is a miss and no error: whatever went wrong, the environment is
/// built, for the same entry and the same interpreter.
pub proof fn lemma_failed_lookup_is_a_miss(a: AcquisitionView, error: ProjectError)
    requires
        looks_up(a.stage),
    ensures
        advanced(a, EventView::Failed { error }).stage is CreatingScratch,
        entry_of(advanced(a, EventView::Failed { error }).stage) == entry_of(a.stage),
        pending_action(advanced(a, EventView::Failed { error })) == ActionView::CreateScratch,
{
}

/// Outside the lookup, a failure ends the acquisition with the error as it
/// was reported.
pub proof fn lemma_failure_is_passed_on(a: AcquisitionView, error: ProjectError)
    requires
        !looks_up(a.stage),
        !is_end(a.stage),
    ensures
        advanced(a, EventView::Failed { error }).stage == (StageView::Failed { error }),
        pending_action(advanced(a, EventView::Failed { error })) == (ActionView::Fail { error }),
{
}

/// An acquisition that has come to its end stays as it is.
pub proof fn lemma_end_is_final(a: AcquisitionView, event: EventView)
    requires
        is_end(a.stage),
    ensures
        advanced(a, event) == a,
{
}

/// An interpreter that is its own base is used as it is: the requirements
/// are resolved with it, and no interpreter is queried.
pub proof fn lemma_own_base_is_not_queried(a: AcquisitionView, base: Seq<char>)
    requires
        a.stage is ResolvingBase,
    ensures
        pending_action(advanced(a, EventView::BaseResolved { base, is_current: true }))
            == (ActionView::Resolve { interpreter: a.requested }),
{
}

/// The entry of an environment is the key of its two digests: that of the
/// canonical path of the base interpreter, and that of the resolution.
pub proof fn lemma_entry_is_the_key_of_the_digests(a: AcquisitionView, digest: Seq<char>)
    requires
        a.stage is Canonicalizing,
    ensures
        entry_of(advanced(a, EventView::Canonicalized { digest }).stage) == Some(
            environment_key(digest, a.stage->Canonicalizing_resolution),
        ),
{
}

/// Every event either leaves the stage as it is or takes the acquisition
/// further, so an acquisition comes to its end after at most eleven events
/// that it takes up.
pub proof fn lemma_events_advance(a: AcquisitionView, event: EventView)
    ensures
        advanced(a, event).stage == a.stage || progress(advanced(a, event).stage) > progress(
            a.stage,
        ),
        progress(a.stage) <= 11,
        progress(a.stage) == 11 <==> is_end(a.stage),
{
}

/// The entry and the scratch directory, once they are known, stay the same
/// as long as the acquisition works with them: what is built in a scratch
/// directory is published from that directory, under the entry that was
/// looked up.
pub proof fn lemma_entry_and_scratch_are_kept(a: AcquisitionView, event: EventView)
    ensures
        entry_of(a.stage) is Some && entry_of(advanced(a, event).stage) is Some ==> entry_of(
            advanced(a, event).stage,
        ) == entry_of(a.stage),
        scratch_of(a.stage) is Some && scratch_of(advanced(a, event).stage) is Some ==> scratch_of(
            advanced(a, event).stage,
        ) == scratch_of(a.stage),
{
}

/// The actions that build and publish name the scratch directory and the
/// entry of their stage: the environment is created in the scratch
/// directory, never at its place in the cache, and only the publishing names
/// the entry.
pub proof fn lemma_build_works_in_scratch(a: AcquisitionView)
    ensures
        a.stage is CreatingVenv ==> pending_action(a) is CreateVenv && Some(
            pending_action(a)->CreateVenv_request.location,
        ) == scratch_of(a.stage),
        a.stage is Syncing ==> pending_action(a) is Sync && Some(
            pending_action(a)->Sync_environment,
        ) == scratch_of(a.stage),
        a.stage is Persisting ==> pending_action(a) is Persist && Some(
            pending_action(a)->Persist_scratch,
        ) == scratch_of(a.stage) && Some(pending_action(a)->Persist_entry) == entry_of(a.stage),
        pending_action(a) is Persist ==> a.stage is Persisting,
{
}

/// An environment is published only once it is installed: a stage that
/// publishes is reached from the stage that installs, by the report that the
/// installation is done.
pub proof fn lemma_publishing_follows_installation(a: AcquisitionView, event: EventView)
    requires
        advanced(a, event).stage is Persisting,
    ensures
        a.stage is Persisting || (a.stage is Syncing && event is Synced),
{
}

/// With a refresh the cache is passed by: whatever is reported, the
/// acquisition never follows the entry, never loads what the cache holds, and
/// never hands out an environment that it did not build.
pub proof fn lemma_refresh_passes_the_cache_by(
    requested: Seq<char>,
    symlink_environments: bool,
    events: Seq<EventView>,
)
    ensures
        ({
            let a = after_all(started(requested, true, symlink_environments), events);
            &&& a.refresh
            &&& !looks_up(a.stage)
            &&& a.stage is Ready ==> !a.stage->Ready_reused
        }),
    decreases events.len(),
{
    if events.len() > 0 {
        lemma_refresh_passes_the_cache_by(requested, symlink_environments, events.drop_last());
    }
}

/// An environment that is handed out as built was installed before it was
/// published: among the events that led there is the report that the
/// installation is done, taken up by the stage that installs.
pub proof fn lemma_built_environment_was_installed(
    start: AcquisitionView,
    events: Seq<EventView>,
)
    requires
        start.stage is ResolvingBase,
    ensures
        ({
            let stage = after_all(start, events).stage;
            (stage is Persisting || stage is LoadingPublished || (stage is Ready
                && !stage->Ready_reused)) ==> exists|i: int|
                0 <= i < events.len() && events[i] is Synced && (#[trigger] after_all(
                    start,
                    events.take(i),
                )).stage is Syncing
        }),
    decreases events.len(),
{
    let stage = after_all(start, events).stage;
    if events.len() > 0 && (stage is Persisting || stage is LoadingPublished || (stage is Ready
        && !stage->Ready_reused)) {
        let earlier = events.drop_last();
        let before = after_all(start, earlier);
        let last = events.len() - 1;
        assert(events.take(last) =~= earlier);
        if before.stage is Syncing {
            assert(events[last] is Synced);
            assert(after_all(start, events.take(last)).stage is Syncing);
        } else {
            lemma_built_environment_was_installed(start, earlier);
            let i = choose|i: int|
                0 <= i < earlier.len() && earlier[i] is Synced && (#[trigger] after_all(
                    start,
                    earlier.take(i),
                )).stage is Syncing;
            assert(earlier.take(i) =~= events.take(i));
        }
    }
}

/// The entry that an acquisition works on, and the entry of the environment
/// that it hands out, is the key of the two digests that were reported to it:
/// among the events that led there is the digest of the canonical path, taken
/// up by the stage that holds the digest of the resolution.
pub proof fn lemma_entry_comes_from_the_digests(start: AcquisitionView, events: Seq<EventView>)
    requires
        start.stage is ResolvingBase,
    ensures
        entry_of(after_all(start, events).stage) matches Some(entry) ==> exists|i: int|
            0 <= i < events.len() && events[i] is Canonicalized && (#[trigger] after_all(
                start,
                events.take(i),
            )).stage is Canonicalizing && entry == environment_key(
                events[i]->Canonicalized_digest,
                after_all(start, events.take(i)).stage->Canonicalizing_resolution,
            ),
    decreases events.len(),
{
    let stage = after_all(start, events).stage;
    if events.len() > 0 && entry_of(stage) is Some {
        let entry = entry_of(stage)->Some_0;
        let earlier = events.drop_last();
        let before = after_all(start, earlier);
        let last = events.len() - 1;
        assert(events.take(last) =~= earlier);
        if before.stage is Canonicalizing {
            assert(events[last] is Canonicalized);
            assert(after_all(start, events.take(last)).stage is Canonicalizing);
        } else {
            lemma_entry_and_scratch_are_kept(before, events.last());
            lemma_entry_comes_from_the_digests(start, earlier);
            let i = choose|i: int|
                0 <= i < earlier.len() && earlier[i] is Canonicalized && (#[trigger] after_all(
                    start,
                    earlier.take(i),
                )).stage is Canonicalizing && entry == environment_key(
                    earlier[i]->Canonicalized_digest,
                    after_all(start, earlier.take(i)).stage->Canonicalizing_resolution,
                );
            assert(earlier.take(i) =~= events.take(i));
        }
    }
}

/// Two acquisitions whose digests are well formed work at the same place
/// in the cache exactly when they work on the same entry: environments of
/// different interpreters or different resolutions never share a place.
pub proof fn lemma_entries_do_not_share_a_place(a: AcquisitionView, b: AcquisitionView)
    requires
        is_well_formed(a),
        is_well_formed(b),
        entry_of(a.stage) is Some,
        entry_of(b.stage) is Some,
    ensures
        logical_path_of(entry_of(a.stage)->Some_0) == logical_path_of(entry_of(b.stage)->Some_0)
            <==> entry_of(a.stage) == entry_of(b.stage),
{
    lemma_logical_path_tells_keys_apart(entry_of(a.stage)->Some_0, entry_of(b.stage)->Some_0);
}

} // verus!
