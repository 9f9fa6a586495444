//! The lifecycle of one test: provision, migrate, load fixtures, run the
//! body, then tear down whatever happened before.
//!
//! A driver performs the action that the session asks for and reports back
//! whether it succeeded; the session decides what comes next.

use vstd::prelude::*;

verus! {

/// What the caller of a test observes once it has been torn down.
#[derive(Clone, Copy, Debug, PartialEq, Eq, Structural)]
pub enum Outcome {
    /// The body ran and succeeded.
    Passed,
    /// The body ran and failed; its failure is re-raised to the caller.
    BodyFailed,
    /// The database could not be created or reached; the body did not run.
    ProvisioningFailed,
    /// The migration or a fixture could not be applied; the body did not run.
    MigrationFailed,
}

/// Where a session stands.
#[derive(Clone, Copy, Debug, PartialEq, Eq, Structural)]
pub enum Phase {
    Provisioning,
    Migrating,
    /// Loading the fixture at this position of the configured list.
    LoadingFixture(usize),
    Running,
    Terminating,
    Resetting,
    Done,
}

/// The work that a driver is asked to do next.
#[derive(Clone, Copy, Debug, PartialEq, Eq, Structural)]
pub enum Action {
    CreateDatabase,
    RunMigration,
    /// Apply the fixture at this position of the configured list.
    LoadFixture(usize),
    RunBody,
    TerminateConnections,
    ResetSchema,
    /// Report the outcome to the caller.
    Finish(Outcome),
}

/// The state of one test invocation.
#[derive(Clone, Copy, Debug, PartialEq, Eq, Structural)]
pub struct Session {
    pub phase: Phase,
    /// How many fixtures are configured.
    pub fixture_count: usize,
    /// The outcome so far; final once teardown has begun.
    pub outcome: Outcome,
    /// Whether a teardown step failed (reported, never the outcome).
    pub teardown_failed: bool,
}

impl Phase {
    pub open spec fn is_teardown(self) -> bool {
        self is Terminating || self is Resetting
    }
}

impl Session {
    pub open spec fn wf(self) -> bool {
        match self.phase {
            Phase::LoadingFixture(i) => i < self.fixture_count,
            _ => true,
        }
    }

    /// The session of a test with `fixture_count` fixtures, before anything ran.
    pub open spec fn initial(fixture_count: usize) -> Session {
        Session {
            phase: Phase::Provisioning,
            fixture_count,
            outcome: Outcome::Passed,
            teardown_failed: false,
        }
    }

    /// The action that the session asks for in its current phase.
    pub open spec fn action_of(self) -> Action {
        match self.phase {
            Phase::Provisioning => Action::CreateDatabase,
            Phase::Migrating => Action::RunMigration,
            Phase::LoadingFixture(i) => Action::LoadFixture(i),
            Phase::Running => Action::RunBody,
            Phase::Terminating => Action::TerminateConnections,
            Phase::Resetting => Action::ResetSchema,
            Phase::Done => Action::Finish(self.outcome),
        }
    }

    /// Enters teardown with the given outcome.
    pub open spec fn tear_down_with(self, outcome: Outcome) -> Session {
        Session { phase: Phase::Terminating, outcome, ..self }
    }

    /// The phase after the fixtures from position `i` on, when there are any.
    pub open spec fn fixtures_from(self, i: usize) -> Phase {
        if i < self.fixture_count {
            Phase::LoadingFixture(i)
        } else {
            Phase::Running
        }
    }

    /// The session after the current action ended, successfully or not.
    pub open spec fn next(self, ok: bool) -> Session {
        match self.phase {
            Phase::Provisioning => if ok {
                Session { phase: Phase::Migrating, ..self }
            } else {
                self.tear_down_with(Outcome::ProvisioningFailed)
            },
            Phase::Migrating => if ok {
                Session { phase: self.fixtures_from(0), ..self }
            } else {
                self.tear_down_with(Outcome::MigrationFailed)
            },
            Phase::LoadingFixture(i) => if ok {
                Session { phase: self.fixtures_from((i + 1) as usize), ..self }
            } else {
                self.tear_down_with(Outcome::MigrationFailed)
            },
            Phase::Running => if ok {
                self.tear_down_with(Outcome::Passed)
            } else {
                self.tear_down_with(Outcome::BodyFailed)
            },
            Phase::Terminating => Session {
                phase: Phase::Resetting,
                teardown_failed: self.teardown_failed || !ok,
                ..self
            },
            Phase::Resetting => Session {
                phase: Phase::Done,
                teardown_failed: self.teardown_failed || !ok,
                ..self
            },
            Phase::Done => self,
        }
    }

    /// The session after the results `oks`, reported one by one.
    pub open spec fn run(self, oks: Seq<bool>) -> Session
        decreases oks.len(),
    {
        if oks.len() == 0 {
            self
        } else {
            self.next(oks[0]).run(oks.drop_first())
        }
    }

    /// The actions asked for while the results `oks` are reported.
    pub open spec fn trace(self, oks: Seq<bool>) -> Seq<Action>
        decreases oks.len(),
    {
        if oks.len() == 0 {
            seq![]
        } else {
            seq![self.action_of()] + self.next(oks[0]).trace(oks.drop_first())
        }
    }

    /// How many more results a session needs to be done.
    pub open spec fn remaining(self) -> nat {
        match self.phase {
            Phase::Provisioning => (self.fixture_count + 5) as nat,
            Phase::Migrating => (self.fixture_count + 4) as nat,
            Phase::LoadingFixture(i) => (self.fixture_count - i + 3) as nat,
            Phase::Running => 3,
            Phase::Terminating => 2,
            Phase::Resetting => 1,
            Phase::Done => 0,
        }
    }

    /// Starts a test that has `fixture_count` fixtures.
    pub fn new(fixture_count: usize) -> (r: Session)
        ensures
            r == Session::initial(fixture_count),
            r.wf(),
    {
        Session {
            phase: Phase::Provisioning,
            fixture_count,
            outcome: Outcome::Passed,
            teardown_failed: false,
        }
    }

    /// The action that the session asks for now.
    pub fn action(&self) -> (r: Action)
        ensures
            r == self.action_of(),
    {
        match self.phase {
            Phase::Provisioning => Action::CreateDatabase,
            Phase::Migrating => Action::RunMigration,
            Phase::LoadingFixture(i) => Action::LoadFixture(i),
            Phase::Running => Action::RunBody,
            Phase::Terminating => Action::TerminateConnections,
            Phase::Resetting => Action::ResetSchema,
            Phase::Done => Action::Finish(self.outcome),
        }
    }

    /// Whether the session has finished, teardown included.
    pub fn is_done(&self) -> (r: bool)
        ensures
            r == (self.phase is Done),
    {
        match self.phase {
            Phase::Done => true,
            _ => false,
        }
    }

    fn fixtures_phase(&self, i: usize) -> (r: Phase)
        ensures
            r == self.fixtures_from(i),
    {
        if i < self.fixture_count {
            Phase::LoadingFixture(i)
        } else {
            Phase::Running
        }
    }

    /// Records whether the current action succeeded and returns the next one.
    pub fn advance(&mut self, ok: bool) -> (r: Action)
        requires
            old(self).wf(),
        ensures
            *final(self) == old(self).next(ok),
            final(self).wf(),
            r == final(self).action_of(),
    {
        match self.phase {
            Phase::Provisioning => {
                if ok {
                    self.phase = Phase::Migrating;
                } else {
                    self.phase = Phase::Terminating;
                    self.outcome = Outcome::ProvisioningFailed;
                }
            },
            Phase::Migrating => {
                if ok {
                    self.phase = self.fixtures_phase(0);
                } else {
                    self.phase = Phase::Terminating;
                    self.outcome = Outcome::MigrationFailed;
                }
            },
            Phase::LoadingFixture(i) => {
                if ok {
                    self.phase = self.fixtures_phase(i + 1);
                } else {
                    self.phase = Phase::Terminating;
                    self.outcome = Outcome::MigrationFailed;
                }
            },
            Phase::Running => {
                self.phase = Phase::Terminating;
                self.outcome = if ok {
                    Outcome::Passed
                } else {
                    Outcome::BodyFailed
                };
            },
            Phase::Terminating => {
                self.phase = Phase::Resetting;
                self.teardown_failed = self.teardown_failed || !ok;
            },
            Phase::Resetting => {
                self.phase = Phase::Done;
                self.teardown_failed = self.teardown_failed || !ok;
            },
            Phase::Done => {},
        }
        self.action()
    }
}

/// Each result moves an unfinished session one step nearer to done, and
/// keeps it well formed.
proof fn lemma_next_progress(s: Session, ok: bool)
    requires
        s.wf(),
    ensures
        s.next(ok).wf(),
        s.next(ok).fixture_count == s.fixture_count,
        !(s.phase is Done) ==> s.next(ok).remaining() + 1 <= s.remaining(),
        s.phase is Done ==> s.next(ok) == s,
{
}

/// Every session ends: after as many results as `remaining` counts, whatever
/// they are, teardown has run and the session is done.
pub proof fn lemma_always_finishes(s: Session, oks: Seq<bool>)
    requires
        s.wf(),
        oks.len() >= s.remaining(),
    ensures
        s.run(oks).phase is Done,
    decreases oks.len(),
{
    if oks.len() == 0 {
    } else {
        lemma_next_progress(s, oks[0]);
        if s.phase is Done {
            lemma_always_finishes(s, oks.drop_first());
        } else {
            lemma_always_finishes(s.next(oks[0]), oks.drop_first());
        }
    }
}

/// A session is done only after it asked to terminate the other connections
/// and, right after that, to reset the schema: no outcome is reported
/// without a teardown, whatever failed before it.
pub proof fn lemma_teardown_before_finish(s: Session, oks: Seq<bool>)
    requires
        s.wf(),
        !(s.phase is Resetting),
        !(s.phase is Done),
        s.run(oks).phase is Done,
    ensures
        exists|j: int|
            0 <= j && j + 1 < s.trace(oks).len() && #[trigger] s.trace(oks)[j]
                == Action::TerminateConnections && s.trace(oks)[j + 1] == Action::ResetSchema,
    decreases oks.len(),
{
    let t = s.trace(oks);
    if oks.len() == 0 {
    } else {
        let n = s.next(oks[0]);
        let rest = oks.drop_first();
        lemma_next_progress(s, oks[0]);
        if s.phase is Terminating {
            assert(rest.len() > 0);
            assert(n.trace(rest)[0] == Action::ResetSchema);
            assert(t[0] == Action::TerminateConnections);
            assert(t[1] == Action::ResetSchema);
        } else {
            lemma_teardown_before_finish(n, rest);
            let j = choose|j: int|
                0 <= j && j + 1 < n.trace(rest).len() && #[trigger] n.trace(rest)[j]
                    == Action::TerminateConnections && n.trace(rest)[j + 1]
                    == Action::ResetSchema;
            assert(t[j + 1] == Action::TerminateConnections);
        }
    }
}

/// Once teardown has begun the outcome is fixed: a failing teardown step
/// never replaces the outcome of the setup or of the body.
pub proof fn lemma_teardown_keeps_outcome(s: Session, oks: Seq<bool>)
    requires
        s.phase.is_teardown() || s.phase is Done,
    ensures
        s.run(oks).outcome == s.outcome,
    decreases oks.len(),
{
    if oks.len() > 0 {
        lemma_teardown_keeps_outcome(s.next(oks[0]), oks.drop_first());
    }
}

/// A failing body is followed by the whole teardown and then reported as the
/// failure of the body, whether the teardown steps succeed or fail.
pub proof fn lemma_body_failure_survives_teardown(s: Session, t1: bool, t2: bool)
    requires
        s.wf(),
        s.phase is Running,
    ensures
        s.trace(seq![false, t1, t2]) == seq![
            Action::RunBody,
            Action::TerminateConnections,
            Action::ResetSchema,
        ],
        s.run(seq![false, t1, t2]).action_of() == Action::Finish(Outcome::BodyFailed),
{
    let oks = seq![false, t1, t2];
    reveal_with_fuel(Session::trace, 4);
    reveal_with_fuel(Session::run, 4);
    assert(oks.drop_first() =~= seq![t1, t2]);
    assert(seq![t1, t2].drop_first() =~= seq![t2]);
    assert(seq![t2].drop_first() =~= Seq::<bool>::empty());
    assert(s.trace(oks) =~= seq![
        Action::RunBody,
        Action::TerminateConnections,
        Action::ResetSchema,
    ]);
}

/// The outcome that a failure of the action asked for in `phase` gives.
pub open spec fn failure_outcome(phase: Phase) -> Outcome {
    match phase {
        Phase::Provisioning => Outcome::ProvisioningFailed,
        Phase::Running => Outcome::BodyFailed,
        _ => Outcome::MigrationFailed,
    }
}

/// A failing setup step (creating the database, the migration, a fixture)
/// skips the body, is followed by the whole teardown, and is reported as that
/// setup failure whatever the teardown steps give.
pub proof fn lemma_setup_failure_tears_down(s: Session, t1: bool, t2: bool)
    requires
        s.wf(),
        s.phase is Provisioning || s.phase is Migrating || s.phase is LoadingFixture,
    ensures
        s.trace(seq![false, t1, t2]) == seq![
            s.action_of(),
            Action::TerminateConnections,
            Action::ResetSchema,
        ],
        s.run(seq![false, t1, t2]).action_of() == Action::Finish(failure_outcome(s.phase)),
        failure_outcome(s.phase) is ProvisioningFailed || failure_outcome(s.phase) is MigrationFailed,
{
    let oks = seq![false, t1, t2];
    reveal_with_fuel(Session::trace, 4);
    reveal_with_fuel(Session::run, 4);
    assert(oks.drop_first() =~= seq![t1, t2]);
    assert(seq![t1, t2].drop_first() =~= seq![t2]);
    assert(seq![t2].drop_first() =~= Seq::<bool>::empty());
    assert(s.trace(oks) =~= seq![
        s.action_of(),
        Action::TerminateConnections,
        Action::ResetSchema,
    ]);
}

/// `n` successful results.
pub open spec fn successes(n: nat) -> Seq<bool> {
    Seq::new(n, |i: int| true)
}

/// The fixtures from position `i` on are loaded one by one in the configured
/// order, and then the body runs.
proof fn lemma_fixtures_from(s: Session, i: usize)
    requires
        s.wf(),
        i <= s.fixture_count,
        s.phase == s.fixtures_from(i),
    ensures
        s.trace(successes((s.fixture_count - i) as nat)) == Seq::new(
            (s.fixture_count - i) as nat,
            |k: int| Action::LoadFixture((i + k) as usize),
        ),
        s.run(successes((s.fixture_count - i) as nat)).phase is Running,
        s.run(successes((s.fixture_count - i) as nat)).fixture_count == s.fixture_count,
    decreases s.fixture_count - i,
{
    let m = (s.fixture_count - i) as nat;
    if m > 0 {
        let n = s.next(true);
        assert(successes(m).drop_first() =~= successes((m - 1) as nat));
        lemma_fixtures_from(n, (i + 1) as usize);
        assert(s.trace(successes(m)) =~= Seq::new(m, |k: int| Action::LoadFixture((i + k) as usize)));
    } else {
        assert(successes(m) =~= Seq::<bool>::empty());
    }
}

/// When every setup step succeeds, the session creates the database, runs the
/// migration, then loads the fixtures in exactly the configured order, and
/// only then runs the body.
pub proof fn lemma_fixtures_in_order(fixture_count: usize)
    ensures
        Session::initial(fixture_count).trace(successes((fixture_count + 2) as nat)) == seq![
            Action::CreateDatabase,
            Action::RunMigration,
        ] + Seq::new(fixture_count as nat, |k: int| Action::LoadFixture(k as usize)),
        Session::initial(fixture_count).run(successes((fixture_count + 2) as nat)).phase is Running,
{
    let s0 = Session::initial(fixture_count);
    let s1 = s0.next(true);
    let s2 = s1.next(true);
    let oks = successes((fixture_count + 2) as nat);
    assert(oks.drop_first() =~= successes((fixture_count + 1) as nat));
    assert(successes((fixture_count + 1) as nat).drop_first() =~= successes(fixture_count as nat));
    reveal_with_fuel(Session::trace, 3);
    reveal_with_fuel(Session::run, 3);
    lemma_fixtures_from(s2, 0);
    assert(Seq::new(fixture_count as nat, |k: int| Action::LoadFixture((0 + k) as usize))
        =~= Seq::new(fixture_count as nat, |k: int| Action::LoadFixture(k as usize)));
    assert(s0.trace(oks) =~= seq![Action::CreateDatabase, Action::RunMigration] + Seq::new(
        fixture_count as nat,
        |k: int| Action::LoadFixture(k as usize),
    ));
}

} // verus!
