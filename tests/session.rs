use pg_harness::session::{Action, Outcome, Phase, Session};

/// Feeds `results` to a fresh session and returns every action asked for,
/// the first one included.
fn drive(fixture_count: usize, results: &[bool]) -> (Vec<Action>, Session) {
    let mut s = Session::new(fixture_count);
    let mut actions = vec![s.action()];
    for &ok in results {
        actions.push(s.advance(ok));
    }
    (actions, s)
}

#[test]
fn full_cycle_passes() {
    let (actions, s) = drive(2, &[true, true, true, true, true, true, true]);
    assert_eq!(
        actions,
        vec![
            Action::CreateDatabase,
            Action::RunMigration,
            Action::LoadFixture(0),
            Action::LoadFixture(1),
            Action::RunBody,
            Action::TerminateConnections,
            Action::ResetSchema,
            Action::Finish(Outcome::Passed),
        ]
    );
    assert!(s.is_done());
    assert!(!s.teardown_failed);
}

#[test]
fn fixtures_are_loaded_in_configured_order() {
    let (actions, _) = drive(3, &[true, true, true, true, true]);
    assert_eq!(
        &actions[2..5],
        &[Action::LoadFixture(0), Action::LoadFixture(1), Action::LoadFixture(2)]
    );
    assert_eq!(actions[5], Action::RunBody);
}

#[test]
fn failing_fixture_stops_later_fixtures_and_body() {
    // The second fixture depends on the first; applied out of order it fails.
    let (actions, s) = drive(2, &[true, true, false, true, true]);
    assert_eq!(
        actions,
        vec![
            Action::CreateDatabase,
            Action::RunMigration,
            Action::LoadFixture(0),
            Action::TerminateConnections,
            Action::ResetSchema,
            Action::Finish(Outcome::MigrationFailed),
        ]
    );
    assert!(s.is_done());
}

#[test]
fn teardown_runs_after_failing_body() {
    let (actions, s) = drive(0, &[true, true, false, true, true]);
    assert_eq!(
        actions,
        vec![
            Action::CreateDatabase,
            Action::RunMigration,
            Action::RunBody,
            Action::TerminateConnections,
            Action::ResetSchema,
            Action::Finish(Outcome::BodyFailed),
        ]
    );
    assert_eq!(s.outcome, Outcome::BodyFailed);
}

#[test]
fn teardown_runs_after_failing_migration() {
    let (actions, s) = drive(1, &[true, false, true, true]);
    assert_eq!(
        actions,
        vec![
            Action::CreateDatabase,
            Action::RunMigration,
            Action::TerminateConnections,
            Action::ResetSchema,
            Action::Finish(Outcome::MigrationFailed),
        ]
    );
    assert!(s.is_done());
}

#[test]
fn teardown_runs_after_failing_provisioning() {
    let (actions, s) = drive(1, &[false, true, true]);
    assert_eq!(
        actions,
        vec![
            Action::CreateDatabase,
            Action::TerminateConnections,
            Action::ResetSchema,
            Action::Finish(Outcome::ProvisioningFailed),
        ]
    );
    assert!(s.is_done());
}

#[test]
fn body_failure_dominates_teardown_failure() {
    let (actions, s) = drive(0, &[true, true, false, false, false]);
    assert_eq!(actions.last(), Some(&Action::Finish(Outcome::BodyFailed)));
    assert_eq!(s.outcome, Outcome::BodyFailed);
    assert!(s.teardown_failed);
}

#[test]
fn teardown_failure_does_not_fail_a_passing_body() {
    let (actions, s) = drive(0, &[true, true, true, false, true]);
    assert_eq!(actions.last(), Some(&Action::Finish(Outcome::Passed)));
    assert!(s.teardown_failed);
}

#[test]
fn done_session_stays_done() {
    let (_, mut s) = drive(0, &[true, true, true, true, true]);
    let before = s;
    assert_eq!(s.advance(false), Action::Finish(Outcome::Passed));
    assert_eq!(s, before);
    assert_eq!(s.phase, Phase::Done);
}
