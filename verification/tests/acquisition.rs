use environment_cache::acquire::{Acquisition, Stage};
use environment_cache::digest::{interpreter_digest, resolution_digest};
use environment_cache::distribution::Distribution;
use environment_cache::entry::CacheEntry;
use environment_cache::error::ProjectError;
use environment_cache::interpreter::BaseLookup;
use environment_cache::protocol::{
    Action, CachedEnvironment, Event, Modifications, Outcome, VenvRequest,
};

const VENV_PYTHON: &str = "/work/.venv/bin/python";
const BASE_PYTHON: &str = "/usr/bin/python3.12";
const REAL_PYTHON: &str = "/usr/lib/python3.12/bin/python3.12";

fn dists() -> Vec<Distribution> {
    vec![Distribution::new("b", "1.0", "index"), Distribution::new("a", "2.0", "index")]
}

fn entry() -> CacheEntry {
    CacheEntry::new(interpreter_digest(REAL_PYTHON), resolution_digest(&dists()))
}

fn failed(error: ProjectError) -> Outcome {
    Outcome::Failed { error }
}

/// Runs an acquisition through the outcomes and returns it with the actions
/// that it asked for, the first one included.
fn run(refresh: bool, outcomes: Vec<Outcome>) -> (Acquisition, Vec<Action>) {
    let mut acquisition = Acquisition::new(VENV_PYTHON.to_string(), refresh, true);
    let mut actions = vec![acquisition.pending()];
    for outcome in outcomes {
        let (next, action) = acquisition.step(outcome);
        acquisition = next;
        actions.push(action);
    }
    (acquisition, actions)
}

fn up_to_lookup() -> Vec<Outcome> {
    vec![
        Outcome::BaseResolved { base: BASE_PYTHON.to_string() },
        Outcome::BaseQueried { sys_executable: BASE_PYTHON.to_string() },
        Outcome::Resolved { distributions: dists() },
        Outcome::Canonicalized { path: REAL_PYTHON.to_string() },
    ]
}

fn build() -> Vec<Outcome> {
    vec![
        Outcome::ScratchCreated { directory: "/cache/.tmp/x1".to_string() },
        Outcome::VenvCreated,
        Outcome::Synced,
        Outcome::Persisted { root: "/cache/archive-v0/abc".to_string() },
        Outcome::EnvironmentLoaded,
    ]
}

fn build_actions() -> Vec<Action> {
    vec![
        Action::CreateScratch,
        Action::CreateVenv {
            request: VenvRequest {
                location: "/cache/.tmp/x1".to_string(),
                interpreter: BASE_PYTHON.to_string(),
                prompt: None,
                system_site_packages: false,
                remove_existing: true,
                relocatable: true,
                seed: false,
                upgradeable: false,
            },
        },
        Action::Sync {
            environment: "/cache/.tmp/x1".to_string(),
            modifications: Modifications::Exact,
        },
        Action::Persist { scratch: "/cache/.tmp/x1".to_string(), entry: entry() },
        Action::LoadEnvironment { root: "/cache/archive-v0/abc".to_string() },
        Action::Finish {
            environment: CachedEnvironment::new(entry(), "/cache/archive-v0/abc".to_string(), false),
        },
    ]
}

fn lookup_actions() -> Vec<Action> {
    vec![
        Action::FindBase { interpreter: VENV_PYTHON.to_string(), lookup: BaseLookup::FollowSymlinks },
        Action::QueryInterpreter { executable: BASE_PYTHON.to_string() },
        Action::Resolve { interpreter: BASE_PYTHON.to_string() },
        Action::Canonicalize { executable: BASE_PYTHON.to_string() },
    ]
}

#[test]
fn acquisition_starts_by_finding_the_base() {
    let acquisition = Acquisition::new(VENV_PYTHON.to_string(), false, false);
    assert_eq!(acquisition.stage(), &Stage::ResolvingBase);
    assert!(!acquisition.is_finished());
    assert_eq!(
        acquisition.pending(),
        Action::FindBase { interpreter: VENV_PYTHON.to_string(), lookup: BaseLookup::BasePrefix }
    );
}

#[test]
fn cached_environment_is_reused() {
    let mut outcomes = up_to_lookup();
    outcomes.push(Outcome::LinkResolved { root: "/cache/archive-v0/abc".to_string() });
    outcomes.push(Outcome::EnvironmentLoaded);
    let (acquisition, actions) = run(false, outcomes);
    let mut expected = lookup_actions();
    expected.push(Action::ResolveLink { entry: entry() });
    expected.push(Action::LoadEnvironment { root: "/cache/archive-v0/abc".to_string() });
    let environment = CachedEnvironment::new(entry(), "/cache/archive-v0/abc".to_string(), true);
    expected.push(Action::Finish { environment: environment.clone() });
    assert_eq!(actions, expected);
    assert!(acquisition.is_finished());
    assert_eq!(
        acquisition.stage(),
        &Stage::Ready { entry: entry(), root: "/cache/archive-v0/abc".to_string(), reused: true }
    );
    assert_eq!(acquisition.result(), Some(Ok(environment.clone())));
    assert_eq!(environment.root(), "/cache/archive-v0/abc");
    assert_eq!(environment.entry(), &entry());
    assert!(environment.reused());
}

#[test]
fn missing_entry_is_built_and_published() {
    let mut outcomes = up_to_lookup();
    outcomes.push(failed(ProjectError::Io));
    outcomes.extend(build());
    let (acquisition, actions) = run(false, outcomes);
    let mut expected = lookup_actions();
    expected.push(Action::ResolveLink { entry: entry() });
    expected.extend(build_actions());
    assert_eq!(actions, expected);
    assert!(acquisition.is_finished());
    let built = acquisition.result().unwrap().unwrap();
    assert!(!built.reused());
    assert_eq!(built.root(), "/cache/archive-v0/abc");
}

#[test]
fn dangling_entry_is_a_miss() {
    let mut outcomes = up_to_lookup();
    outcomes.push(Outcome::LinkResolved { root: "/cache/archive-v0/gone".to_string() });
    outcomes.push(failed(ProjectError::Interpreter));
    let (acquisition, actions) = run(false, outcomes);
    assert_eq!(actions.last(), Some(&Action::CreateScratch));
    assert_eq!(
        acquisition.stage(),
        &Stage::CreatingScratch { interpreter: BASE_PYTHON.to_string(), entry: entry() }
    );
    assert!(!acquisition.is_finished());
}

#[test]
fn refresh_skips_the_lookup() {
    let mut outcomes = up_to_lookup();
    outcomes.extend(build());
    let (_, actions) = run(true, outcomes);
    let mut expected = lookup_actions();
    expected.extend(build_actions());
    assert_eq!(actions, expected);
    assert!(actions.iter().all(|a| !matches!(a, Action::ResolveLink { .. })));
}

#[test]
fn own_base_is_not_queried() {
    let (acquisition, actions) =
        run(false, vec![Outcome::BaseResolved { base: VENV_PYTHON.to_string() }]);
    assert_eq!(actions[1], Action::Resolve { interpreter: VENV_PYTHON.to_string() });
    assert_eq!(acquisition.stage(), &Stage::Resolving { interpreter: VENV_PYTHON.to_string() });
    let mut outcomes = vec![
        Outcome::BaseResolved { base: VENV_PYTHON.to_string() },
        Outcome::Resolved { distributions: dists() },
        Outcome::Canonicalized { path: REAL_PYTHON.to_string() },
        failed(ProjectError::Io),
    ];
    outcomes.extend(build());
    let (acquisition, actions) = run(false, outcomes);
    assert!(acquisition.is_finished());
    let queries = actions.iter().filter(|a| matches!(a, Action::QueryInterpreter { .. })).count();
    assert_eq!(queries, 0);
}

#[test]
fn queried_base_names_the_interpreter() {
    let (_, actions) = run(
        false,
        vec![
            Outcome::BaseResolved { base: BASE_PYTHON.to_string() },
            Outcome::BaseQueried { sys_executable: REAL_PYTHON.to_string() },
        ],
    );
    assert_eq!(actions[1], Action::QueryInterpreter { executable: BASE_PYTHON.to_string() });
    assert_eq!(actions[2], Action::Resolve { interpreter: REAL_PYTHON.to_string() });
}

#[test]
fn same_request_twice_names_the_same_entry() {
    let mut one = up_to_lookup();
    one.push(failed(ProjectError::Io));
    one.extend(build());
    let mut two = vec![
        Outcome::BaseResolved { base: BASE_PYTHON.to_string() },
        Outcome::BaseQueried { sys_executable: BASE_PYTHON.to_string() },
        Outcome::Resolved {
            distributions: vec![
                Distribution::new("a", "2.0", "index"),
                Distribution::new("b", "1.0", "index"),
            ],
        },
        Outcome::Canonicalized { path: REAL_PYTHON.to_string() },
        failed(ProjectError::Io),
        Outcome::ScratchCreated { directory: "/cache/.tmp/x2".to_string() },
        Outcome::VenvCreated,
        Outcome::Synced,
    ];
    let (_, first) = run(false, one);
    let (_, second) = run(false, std::mem::take(&mut two));
    let published = |actions: &[Action]| -> Vec<(String, CacheEntry)> {
        actions
            .iter()
            .filter_map(|a| match a {
                Action::Persist { scratch, entry } => Some((scratch.clone(), entry.clone())),
                _ => None,
            })
            .collect()
    };
    let a = published(&first);
    let b = published(&second);
    assert_eq!(a.len(), 1);
    assert_eq!(b.len(), 1);
    assert_eq!(a[0].1, b[0].1);
    assert_ne!(a[0].0, b[0].0);
}

#[test]
fn failures_outside_the_lookup_end_the_acquisition() {
    let cases: Vec<(Vec<Outcome>, ProjectError)> = vec![
        (vec![], ProjectError::Interpreter),
        (up_to_lookup()[..1].to_vec(), ProjectError::Interpreter),
        (up_to_lookup()[..2].to_vec(), ProjectError::Resolution),
        (up_to_lookup()[..3].to_vec(), ProjectError::Io),
    ];
    for (mut outcomes, error) in cases {
        outcomes.push(failed(error));
        let (acquisition, actions) = run(false, outcomes);
        assert_eq!(actions.last(), Some(&Action::Fail { error }));
        assert_eq!(acquisition.stage(), &Stage::Failed { error });
        assert!(acquisition.is_finished());
    }
    for (done, error) in [
        (0, ProjectError::Io),
        (1, ProjectError::Io),
        (2, ProjectError::Installation),
        (3, ProjectError::Io),
        (4, ProjectError::Interpreter),
    ] {
        let mut outcomes = up_to_lookup();
        outcomes.extend(build()[..done].to_vec());
        outcomes.push(failed(error));
        let (acquisition, actions) = run(true, outcomes);
        assert_eq!(actions.last(), Some(&Action::Fail { error }));
        assert!(acquisition.is_finished());
        assert!(actions.iter().all(|a| !matches!(a, Action::Finish { .. })));
        if done < 3 {
            assert!(actions.iter().all(|a| !matches!(a, Action::Persist { .. })));
        }
    }
}

#[test]
fn finished_acquisition_stays() {
    let (acquisition, _) = run(false, vec![failed(ProjectError::Interpreter)]);
    let (acquisition, action) = acquisition.step(Outcome::Synced);
    assert_eq!(action, Action::Fail { error: ProjectError::Interpreter });
    let (acquisition, action) = acquisition.step(failed(ProjectError::Io));
    assert_eq!(action, Action::Fail { error: ProjectError::Interpreter });
    assert_eq!(acquisition.stage(), &Stage::Failed { error: ProjectError::Interpreter });
    assert_eq!(acquisition.result(), Some(Err(ProjectError::Interpreter)));
}

#[test]
fn outcome_that_does_not_answer_is_ignored() {
    let acquisition = Acquisition::new(VENV_PYTHON.to_string(), false, true);
    let before = acquisition.clone();
    let (acquisition, action) = acquisition.step(Outcome::Synced);
    assert_eq!(acquisition, before);
    assert_eq!(action, before.pending());
    assert_eq!(acquisition.result(), None);
    let (acquisition, _) = acquisition.step(Outcome::Persisted { root: "/x".to_string() });
    assert_eq!(acquisition, before);
}

#[test]
fn derive_computes_digests_and_base() {
    let acquisition = Acquisition::new(VENV_PYTHON.to_string(), false, true);
    assert_eq!(
        acquisition.derive(Outcome::Resolved { distributions: dists() }),
        Event::Resolved { digest: resolution_digest(&dists()) }
    );
    assert_eq!(
        acquisition.derive(Outcome::Canonicalized { path: REAL_PYTHON.to_string() }),
        Event::Canonicalized { digest: interpreter_digest(REAL_PYTHON) }
    );
    assert_eq!(
        acquisition.derive(Outcome::BaseResolved { base: VENV_PYTHON.to_string() }),
        Event::BaseResolved { base: VENV_PYTHON.to_string(), is_current: true }
    );
    assert_eq!(
        acquisition.derive(Outcome::BaseResolved { base: BASE_PYTHON.to_string() }),
        Event::BaseResolved { base: BASE_PYTHON.to_string(), is_current: false }
    );
    assert_eq!(acquisition.derive(Outcome::Synced), Event::Synced);
}

#[test]
fn advance_takes_events_with_given_digests() {
    let acquisition = Acquisition::new(VENV_PYTHON.to_string(), false, true)
        .advance(Event::BaseResolved { base: BASE_PYTHON.to_string(), is_current: true })
        .advance(Event::Resolved { digest: "1111111111111111".to_string() })
        .advance(Event::Canonicalized { digest: "2222222222222222".to_string() });
    assert_eq!(
        acquisition.pending(),
        Action::ResolveLink {
            entry: CacheEntry::new("2222222222222222".to_string(), "1111111111111111".to_string())
        }
    );
}
