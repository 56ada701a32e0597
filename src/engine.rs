use vstd::prelude::*;
use crate::models::{CasbinRule, strings_view};
use crate::sql::{
    SqlStatement, SqlView, insert, insert_sql, insert_args, delete_exact, delete_exact_sql,
    delete_exact_args,
};
use crate::actions::{normalize_casbin_rule, padded};

verus! {

/// How a batch ended: applied, with whether any row was affected, or failed.
#[derive(Clone, Copy, PartialEq, Eq, Debug, Structural)]
pub enum Outcome {
    Applied(bool),
    Failed,
}

/// Where a batch stands.
#[derive(Clone, Copy, PartialEq, Eq, Debug, Structural)]
pub enum Phase {
    Ready,
    Opening,
    Running,
    Committing,
    RollingBack,
    Done(Outcome),
}

/// What the store answered to the last command: success with the number of
/// rows it affected (zero for a begin, commit or rollback), or failure.
#[derive(Clone, Copy, PartialEq, Eq, Debug, Structural)]
pub enum StoreEvent {
    Succeeded(u64),
    Failed,
}

/// What the caller is to do next with the store.
#[derive(Clone, Copy, PartialEq, Eq, Debug, Structural)]
pub enum Command {
    Begin,
    Execute(usize),
    Commit,
    Rollback,
    Finish(Outcome),
}

/// The progress of a batch of `len` statements: `next` of them have
/// succeeded, and `affected` records whether any of them changed a row.
#[derive(Clone, Copy, PartialEq, Eq, Debug, Structural)]
pub struct BatchState {
    pub len: usize,
    pub transactional: bool,
    pub phase: Phase,
    pub next: usize,
    pub affected: bool,
}

impl BatchState {
    pub open spec fn wf(self) -> bool {
        &&& self.next <= self.len
        &&& (self.phase is Running ==> self.next < self.len)
        &&& (self.phase is Opening || self.phase is Committing || self.phase is RollingBack)
            ==> self.transactional
    }

    pub open spec fn initial(len: usize, transactional: bool) -> BatchState {
        BatchState { len, transactional, phase: Phase::Ready, next: 0, affected: false }
    }

    pub open spec fn finish(self, o: Outcome) -> (BatchState, Command) {
        (BatchState { phase: Phase::Done(o), ..self }, Command::Finish(o))
    }

    /// After `next` statements: run the following one, or commit, or end.
    pub open spec fn advance(self) -> (BatchState, Command) {
        if self.next < self.len {
            (BatchState { phase: Phase::Running, ..self }, Command::Execute(self.next))
        } else if self.transactional {
            (BatchState { phase: Phase::Committing, ..self }, Command::Commit)
        } else {
            self.finish(Outcome::Applied(self.affected))
        }
    }

    /// The transition on the store's answer `ev` to the last command; a batch
    /// that has not started ignores `ev` and starts.
    pub open spec fn step(self, ev: StoreEvent) -> (BatchState, Command) {
        match self.phase {
            Phase::Ready => if self.transactional {
                (BatchState { phase: Phase::Opening, ..self }, Command::Begin)
            } else {
                self.advance()
            },
            Phase::Opening => match ev {
                StoreEvent::Succeeded(_) => self.advance(),
                StoreEvent::Failed => self.finish(Outcome::Failed),
            },
            Phase::Running => match ev {
                StoreEvent::Succeeded(n) => BatchState {
                    next: (self.next + 1) as usize,
                    affected: self.affected || n > 0,
                    ..self
                }.advance(),
                StoreEvent::Failed => if self.transactional {
                    (BatchState { phase: Phase::RollingBack, ..self }, Command::Rollback)
                } else {
                    self.finish(Outcome::Failed)
                },
            },
            Phase::Committing => match ev {
                StoreEvent::Succeeded(_) => self.finish(Outcome::Applied(self.affected)),
                StoreEvent::Failed => self.finish(Outcome::Failed),
            },
            Phase::RollingBack => self.finish(Outcome::Failed),
            Phase::Done(o) => (self, Command::Finish(o)),
        }
    }

    /// The commands issued in answer to `events`, one for each.
    pub open spec fn run(self, events: Seq<StoreEvent>) -> Seq<Command>
        decreases events.len(),
    {
        if events.len() == 0 {
            Seq::empty()
        } else {
            let (s, c) = self.step(events[0]);
            seq![c] + s.run(events.drop_first())
        }
    }

    fn advance_exec(self) -> (r: (BatchState, Command))
        requires
            self.next <= self.len,
        ensures
            r == self.advance(),
            r.0.wf(),
    {
        if self.next < self.len {
            (BatchState { phase: Phase::Running, ..self }, Command::Execute(self.next))
        } else if self.transactional {
            (BatchState { phase: Phase::Committing, ..self }, Command::Commit)
        } else {
            (
                BatchState { phase: Phase::Done(Outcome::Applied(self.affected)), ..self },
                Command::Finish(Outcome::Applied(self.affected)),
            )
        }
    }

    /// The transition of `step`, computed.
    pub fn next_step(self, ev: StoreEvent) -> (r: (BatchState, Command))
        requires
            self.wf(),
        ensures
            r == self.step(ev),
            r.0.wf(),
    {
        match self.phase {
            Phase::Ready => if self.transactional {
                (BatchState { phase: Phase::Opening, ..self }, Command::Begin)
            } else {
                self.advance_exec()
            },
            Phase::Opening => match ev {
                StoreEvent::Succeeded(_) => self.advance_exec(),
                StoreEvent::Failed => (
                    BatchState { phase: Phase::Done(Outcome::Failed), ..self },
                    Command::Finish(Outcome::Failed),
                ),
            },
            Phase::Running => match ev {
                StoreEvent::Succeeded(n) => BatchState {
                    next: self.next + 1,
                    affected: self.affected || n > 0,
                    ..self
                }.advance_exec(),
                StoreEvent::Failed => if self.transactional {
                    (BatchState { phase: Phase::RollingBack, ..self }, Command::Rollback)
                } else {
                    (
                        BatchState { phase: Phase::Done(Outcome::Failed), ..self },
                        Command::Finish(Outcome::Failed),
                    )
                },
            },
            Phase::Committing => match ev {
                StoreEvent::Succeeded(_) => (
                    BatchState { phase: Phase::Done(Outcome::Applied(self.affected)), ..self },
                    Command::Finish(Outcome::Applied(self.affected)),
                ),
                StoreEvent::Failed => (
                    BatchState { phase: Phase::Done(Outcome::Failed), ..self },
                    Command::Finish(Outcome::Failed),
                ),
            },
            Phase::RollingBack => (
                BatchState { phase: Phase::Done(Outcome::Failed), ..self },
                Command::Finish(Outcome::Failed),
            ),
            Phase::Done(o) => (self, Command::Finish(o)),
        }
    }
}

/// Statements run one after the other, in one transaction when
/// `state.transactional`: the caller performs each command of `start` and
/// `on_event` on the store and hands back the store's answer.
pub struct Batch {
    pub statements: Vec<SqlStatement>,
    pub state: BatchState,
}

impl Batch {
    pub open spec fn wf(&self) -> bool {
        &&& self.state.wf()
        &&& self.state.len == self.statements@.len()
    }

    pub open spec fn views(&self) -> Seq<SqlView> {
        self.statements@.map_values(|s: SqlStatement| s@)
    }

    /// A batch of one statement outside any transaction.
    pub fn single(statement: SqlStatement) -> (r: Batch)
        ensures
            r.wf(),
            r.state == BatchState::initial(1, false),
            r.views() == seq![statement@],
    {
        let mut statements: Vec<SqlStatement> = Vec::new();
        statements.push(statement);
        let r = Batch { statements, state: BatchState { len: 1, transactional: false, phase: Phase::Ready, next: 0, affected: false } };
        assert(r.views() =~= seq![statement@]);
        r
    }

    /// One transaction that inserts `rows` in order.
    pub fn insert_many(rows: &Vec<CasbinRule>) -> (r: Batch)
        ensures
            r.wf(),
            r.state == BatchState::initial(rows@.len() as usize, true),
            r.views().len() == rows@.len(),
            forall|i: int|
                0 <= i < rows@.len() ==> #[trigger] r.views()[i] == (SqlView {
                    sql: insert_sql(),
                    args: insert_args(rows@[i]@),
                }),
    {
        let mut statements: Vec<SqlStatement> = Vec::new();
        let mut i: usize = 0;
        while i < rows.len()
            invariant
                i <= rows@.len(),
                statements@.len() == i,
                forall|k: int|
                    0 <= k < i ==> #[trigger] statements@[k]@ == (SqlView {
                        sql: insert_sql(),
                        args: insert_args(rows@[k]@),
                    }),
            decreases rows@.len() - i,
        {
            statements.push(insert(&rows[i]));
            i = i + 1;
        }
        Batch {
            statements,
            state: BatchState { len: i, transactional: true, phase: Phase::Ready, next: 0, affected: false },
        }
    }

    /// One transaction that deletes, for each rule, the rows of type `ptype`
    /// equal to the rule brought to six slots.
    pub fn delete_exact_many(ptype: &str, rules: Vec<Vec<String>>) -> (r: Batch)
        ensures
            r.wf(),
            r.state == BatchState::initial(rules@.len() as usize, true),
            r.views().len() == rules@.len(),
            forall|i: int|
                0 <= i < rules@.len() ==> #[trigger] r.views()[i] == (SqlView {
                    sql: delete_exact_sql(),
                    args: delete_exact_args(ptype@, padded(strings_view(rules@[i]@))),
                }),
    {
        let mut statements: Vec<SqlStatement> = Vec::new();
        let mut i: usize = 0;
        while i < rules.len()
            invariant
                i <= rules@.len(),
                statements@.len() == i,
                forall|k: int|
                    0 <= k < i ==> #[trigger] statements@[k]@ == (SqlView {
                        sql: delete_exact_sql(),
                        args: delete_exact_args(ptype@, padded(strings_view(rules@[k]@))),
                    }),
            decreases rules@.len() - i,
        {
            let rule = normalize_casbin_rule(rules[i].clone());
            assert(strings_view(rules[i as int]@) == strings_view(rules@[i as int]@));
            proof {
                assert(rule@.len() == strings_view(rule@).len());
            }
            statements.push(delete_exact(ptype, &rule));
            i = i + 1;
        }
        Batch {
            statements,
            state: BatchState { len: i, transactional: true, phase: Phase::Ready, next: 0, affected: false },
        }
    }

    /// The first command.
    pub fn start(&mut self) -> (r: Command)
        requires
            old(self).wf(),
            old(self).state.phase is Ready,
        ensures
            final(self).wf(),
            final(self).statements == old(self).statements,
            (final(self).state, r) == old(self).state.step(StoreEvent::Succeeded(0)),
    {
        let (s, c) = self.state.next_step(StoreEvent::Succeeded(0));
        self.state = s;
        c
    }

    /// The next command, given the store's answer to the last one.
    pub fn on_event(&mut self, ev: StoreEvent) -> (r: Command)
        requires
            old(self).wf(),
        ensures
            final(self).wf(),
            final(self).statements == old(self).statements,
            (final(self).state, r) == old(self).state.step(ev),
            r matches Command::Execute(i) ==> i < final(self).statements@.len(),
    {
        let (s, c) = self.state.next_step(ev);
        self.state = s;
        c
    }
}

pub proof fn lemma_run_len(s: BatchState, events: Seq<StoreEvent>)
    ensures
        s.run(events).len() == events.len(),
    decreases events.len(),
{
    if events.len() > 0 {
        lemma_run_len(s.step(events[0]).0, events.drop_first());
    }
}

proof fn lemma_run_done(s: BatchState, events: Seq<StoreEvent>, o: Outcome)
    requires
        s.phase == Phase::Done(o),
    ensures
        forall|i: int| 0 <= i < events.len() ==> #[trigger] s.run(events)[i] == Command::Finish(o),
    decreases events.len(),
{
    lemma_run_len(s, events);
    if events.len() > 0 {
        lemma_run_done(s, events.drop_first(), o);
        assert forall|i: int| 0 <= i < events.len() implies #[trigger] s.run(events)[i]
            == Command::Finish(o) by {
            if i > 0 {
                assert(s.run(events)[i] == s.run(events.drop_first())[i - 1]);
            }
        }
    }
}

/// From a committing, rolling back or finished batch no `Commit` comes.
proof fn lemma_run_no_commit(s: BatchState, events: Seq<StoreEvent>)
    requires
        s.phase is Committing || s.phase is RollingBack || s.phase is Done,
    ensures
        forall|i: int| 0 <= i < events.len() ==> #[trigger] s.run(events)[i] != Command::Commit,
{
    lemma_run_len(s, events);
    if events.len() > 0 {
        let (s2, c) = s.step(events[0]);
        let o = s2.phase->Done_0;
        lemma_run_done(s2, events.drop_first(), o);
        assert forall|i: int| 0 <= i < events.len() implies #[trigger] s.run(events)[i]
            != Command::Commit by {
            if i > 0 {
                assert(s.run(events)[i] == s2.run(events.drop_first())[i - 1]);
            }
        }
    }
}

/// The number of successes that a transactional batch still needs before it commits.
pub open spec fn to_commit(s: BatchState) -> int {
    if s.phase is Opening {
        s.len - s.next
    } else {
        s.len - 1 - s.next
    }
}

proof fn lemma_commit_after_successes(s: BatchState, events: Seq<StoreEvent>, i: int)
    requires
        s.wf(),
        s.transactional,
        s.phase is Opening || s.phase is Running,
        0 <= i < events.len(),
        s.run(events)[i] == Command::Commit,
    ensures
        i == to_commit(s),
        forall|j: int| 0 <= j <= i ==> #[trigger] events[j] is Succeeded,
    decreases events.len(),
{
    lemma_run_len(s, events);
    let (s2, c) = s.step(events[0]);
    let rest = events.drop_first();
    assert(s.run(events)[0] == c);
    if i > 0 {
        assert(s.run(events)[i] == s2.run(rest)[i - 1]);
    }
    if events[0] is Failed {
        lemma_run_no_commit(s2, rest);
        assert(c != Command::Commit);
    } else {
        if s.phase is Running {
            assert(s2.next == s.next + 1 && s2.len == s.len);
        }
        if s2.phase is Committing || s2.phase is Done {
            lemma_run_no_commit(s2, rest);
        } else if i > 0 {
            lemma_commit_after_successes(s2, rest, i - 1);
            assert forall|j: int| 0 <= j <= i implies #[trigger] events[j] is Succeeded by {
                if j > 0 {
                    assert(events[j] == rest[j - 1]);
                }
            }
        }
    }
}

/// A transaction commits only after all of its statements succeeded: once a
/// transactional batch of `len` statements has started, a `Commit` is issued
/// only in answer to the `len + 1`-th event (the begin, then each statement),
/// and all the events up to it are successes.
pub proof fn lemma_commit_requires_success(len: usize, events: Seq<StoreEvent>, i: int)
    requires
        0 <= i < events.len(),
        BatchState::initial(len, true).step(StoreEvent::Succeeded(0)).0.run(events)[i]
            == Command::Commit,
    ensures
        i == len,
        forall|j: int| 0 <= j <= i ==> #[trigger] events[j] is Succeeded,
{
    let s = BatchState::initial(len, true).step(StoreEvent::Succeeded(0)).0;
    lemma_commit_after_successes(s, events, i);
}

/// A failed statement aborts its transaction: a running transactional batch
/// answered with a failure issues `Rollback`, then only `Finish(Failed)`.
pub proof fn lemma_failure_rolls_back(s: BatchState, events: Seq<StoreEvent>)
    requires
        s.wf(),
        s.transactional,
        s.phase is Running,
        events.len() > 0,
        events[0] is Failed,
    ensures
        s.run(events).len() == events.len(),
        s.run(events)[0] == Command::Rollback,
        forall|i: int|
            1 <= i < events.len() ==> #[trigger] s.run(events)[i] == Command::Finish(Outcome::Failed),
{
    lemma_run_len(s, events);
    let (s2, c) = s.step(events[0]);
    let rest = events.drop_first();
    let (s3, c3) = s2.step(StoreEvent::Failed);
    assert forall|i: int| 1 <= i < events.len() implies #[trigger] s.run(events)[i]
        == Command::Finish(Outcome::Failed) by {
        assert(s.run(events)[i] == s2.run(rest)[i - 1]);
        lemma_run_len(s2, rest);
        if i > 1 {
            lemma_run_done(s2.step(rest[0]).0, rest.drop_first(), Outcome::Failed);
            assert(s2.run(rest)[i - 1] == s2.step(rest[0]).0.run(rest.drop_first())[i - 2]);
        }
    }
}

} // verus!
