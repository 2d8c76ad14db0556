use unc::supervisor::{
    Action, Decision, Event, FatalCause, Phase, PollResult, Role, SessionOutcome, Supervisor,
    Warning,
};

fn drive(events: &[Event]) -> (Supervisor, Vec<Decision>) {
    let mut s = Supervisor::new();
    let mut out = vec![s.start()];
    for e in events {
        out.push(s.step(*e));
    }
    (s, out)
}

fn actions(ds: &[Decision]) -> Vec<Action> {
    ds.iter().map(|d| d.action).collect()
}

fn warnings(ds: &[Decision]) -> Vec<Warning> {
    ds.iter().filter_map(|d| d.warning).collect()
}

fn kills(ds: &[Decision], r: Role) -> usize {
    ds.iter().filter(|d| d.action == Action::Kill(r)).count()
}

const BOTH_RUNNING: [Event; 6] = [
    Event::ToolChecked(true),
    Event::ConfigRead(true),
    Event::RuntimeChecked(true),
    Event::PrimarySpawned(true),
    Event::SecondarySpawned(true),
    Event::SignalInstalled(true),
];

#[test]
fn primary_success_without_secondary_is_done() {
    let (s, ds) = drive(&[
        Event::ToolChecked(true),
        Event::ConfigRead(false),
        Event::PrimarySpawned(true),
        Event::SignalInstalled(true),
        Event::CancelChecked(false),
        Event::PrimaryPolled(PollResult::Exited(0)),
    ]);
    assert_eq!(
        actions(&ds),
        vec![
            Action::CheckTool,
            Action::ReadConfig,
            Action::SpawnPrimary,
            Action::InstallSignal,
            Action::ReadCancel,
            Action::PollPrimary,
            Action::Finish(SessionOutcome::Done),
        ]
    );
    assert!(warnings(&ds).is_empty());
    assert_eq!(s.phase, Phase::Finished);
    assert_eq!(SessionOutcome::Done.exit_code(), 0);
}

#[test]
fn primary_failure_kills_secondary_first() {
    let mut evs = BOTH_RUNNING.to_vec();
    evs.extend([
        Event::CancelChecked(false),
        Event::PrimaryPolled(PollResult::Running),
        Event::Slept,
        Event::CancelChecked(false),
        Event::PrimaryPolled(PollResult::Exited(137)),
        Event::Killed(Some(143)),
    ]);
    let (_, ds) = drive(&evs);
    let acts = actions(&ds);
    let n = acts.len();
    assert_eq!(acts[n - 2], Action::Kill(Role::Secondary));
    assert_eq!(acts[n - 1], Action::Finish(SessionOutcome::Failed(137)));
    assert_eq!(kills(&ds, Role::Primary), 0);
    assert_eq!(SessionOutcome::Failed(137).exit_code(), 1);
}

#[test]
fn cancellation_kills_secondary_then_primary() {
    let mut evs = BOTH_RUNNING.to_vec();
    evs.extend([
        Event::CancelChecked(false),
        Event::PrimaryPolled(PollResult::Running),
        Event::Slept,
        Event::CancelChecked(true),
        Event::Killed(None),
        Event::Killed(None),
    ]);
    let (s, ds) = drive(&evs);
    let acts = actions(&ds);
    let n = acts.len();
    assert_eq!(
        acts[n - 3..].to_vec(),
        vec![
            Action::Kill(Role::Secondary),
            Action::Kill(Role::Primary),
            Action::Finish(SessionOutcome::Done),
        ]
    );
    assert!(s.cancelled);
    assert!(!s.primary_live && !s.secondary_live);
}

#[test]
fn secondary_spawn_failure_is_a_warning() {
    let (_, ds) = drive(&[
        Event::ToolChecked(true),
        Event::ConfigRead(true),
        Event::RuntimeChecked(true),
        Event::PrimarySpawned(true),
        Event::SecondarySpawned(false),
        Event::SignalInstalled(true),
        Event::CancelChecked(false),
        Event::PrimaryPolled(PollResult::Exited(0)),
    ]);
    assert_eq!(warnings(&ds), vec![Warning::SecondarySpawnFailed]);
    assert_eq!(ds[5].action, Action::InstallSignal);
    assert_eq!(ds.last().unwrap().action, Action::Finish(SessionOutcome::Done));
    assert_eq!(kills(&ds, Role::Secondary), 0);
}

#[test]
fn missing_runtime_disables_secondary() {
    let (_, ds) = drive(&[
        Event::ToolChecked(true),
        Event::ConfigRead(true),
        Event::RuntimeChecked(false),
        Event::PrimarySpawned(true),
    ]);
    assert_eq!(ds[3].warning, Some(Warning::RuntimeMissing));
    assert_eq!(ds[3].action, Action::SpawnPrimary);
    assert_eq!(ds[4].action, Action::InstallSignal);
}

#[test]
fn failed_install_spawns_nothing() {
    let (_, ds) = drive(&[Event::ToolChecked(false), Event::InstallFinished(false)]);
    assert_eq!(
        actions(&ds),
        vec![
            Action::CheckTool,
            Action::InstallTool,
            Action::Finish(SessionOutcome::Fatal(FatalCause::InstallFailed)),
        ]
    );
    let outcome = SessionOutcome::Fatal(FatalCause::InstallFailed);
    assert_eq!(outcome.exit_code(), 1);
}

#[test]
fn install_success_continues() {
    let (_, ds) = drive(&[Event::ToolChecked(false), Event::InstallFinished(true)]);
    assert_eq!(ds[2].action, Action::ReadConfig);
}

#[test]
fn primary_spawn_failure_kills_nothing() {
    let (_, ds) = drive(&[
        Event::ToolChecked(true),
        Event::ConfigRead(true),
        Event::RuntimeChecked(true),
        Event::PrimarySpawned(false),
        Event::Killed(None),
        Event::Slept,
    ]);
    assert_eq!(
        ds[4].action,
        Action::Finish(SessionOutcome::Fatal(FatalCause::PrimarySpawnFailed))
    );
    assert_eq!(kills(&ds, Role::Primary) + kills(&ds, Role::Secondary), 0);
    assert_eq!(ds[5].action, Action::Idle);
}

#[test]
fn signal_failure_shuts_down_in_order() {
    let mut evs = BOTH_RUNNING[..5].to_vec();
    evs.extend([Event::SignalInstalled(false), Event::Killed(None), Event::Killed(None)]);
    let (_, ds) = drive(&evs);
    let acts = actions(&ds);
    assert_eq!(
        acts[6..].to_vec(),
        vec![
            Action::Kill(Role::Secondary),
            Action::Kill(Role::Primary),
            Action::Finish(SessionOutcome::Fatal(FatalCause::SignalInstallFailed)),
        ]
    );
}

#[test]
fn lost_primary_is_fatal_and_cleans_up() {
    let mut evs = BOTH_RUNNING.to_vec();
    evs.extend([
        Event::CancelChecked(false),
        Event::PrimaryPolled(PollResult::Lost),
        Event::Killed(None),
        Event::Killed(None),
    ]);
    let (_, ds) = drive(&evs);
    assert_eq!(kills(&ds, Role::Secondary), 1);
    assert_eq!(kills(&ds, Role::Primary), 1);
    assert_eq!(
        ds.last().unwrap().action,
        Action::Finish(SessionOutcome::Fatal(FatalCause::PrimaryLost))
    );
}

#[test]
fn each_role_killed_once_and_outcome_once() {
    let mut evs = BOTH_RUNNING.to_vec();
    evs.extend([Event::CancelChecked(true)]);
    for _ in 0..6 {
        evs.push(Event::Killed(None));
    }
    let (_, ds) = drive(&evs);
    assert_eq!(kills(&ds, Role::Secondary), 1);
    assert_eq!(kills(&ds, Role::Primary), 1);
    let finishes = ds.iter().filter(|d| matches!(d.action, Action::Finish(_))).count();
    assert_eq!(finishes, 1);
}

#[test]
fn cancellation_stays_observed() {
    let mut evs = BOTH_RUNNING.to_vec();
    evs.extend([Event::CancelChecked(true), Event::CancelChecked(false), Event::Killed(None)]);
    let (s, ds) = drive(&evs);
    assert!(s.cancelled);
    let reads = actions(&ds[8..]).into_iter().filter(|a| *a == Action::ReadCancel).count();
    assert_eq!(reads, 0);
}

#[test]
fn kill_results_do_not_change_the_outcome() {
    let mut a = BOTH_RUNNING.to_vec();
    a.extend([Event::CancelChecked(false), Event::PrimaryPolled(PollResult::Exited(2))]);
    let mut b = a.clone();
    a.push(Event::Killed(Some(0)));
    b.push(Event::Killed(Some(9)));
    let (_, da) = drive(&a);
    let (_, db) = drive(&b);
    assert_eq!(da, db);
    assert_eq!(da.last().unwrap().action, Action::Finish(SessionOutcome::Failed(2)));
}

#[test]
fn unexpected_events_repeat_the_request() {
    let (s, ds) = drive(&[Event::Slept, Event::ConfigRead(true)]);
    assert_eq!(ds[1].action, Action::CheckTool);
    assert_eq!(ds[2].action, Action::CheckTool);
    assert_eq!(s.phase, Phase::CheckingTool);
}
