//! The merge orchestrator: a state machine that drives one run.
//!
//! A run fetches all remotes, creates the destination branch at the remote
//! default branch's tip, resolves the labeled branches once, and merges
//! them one after another, halting at the first fatal condition. The git
//! operations themselves run outside this crate as opaque subprocess calls;
//! what is verified here is the sequencing: which operation is owed in each
//! state, how each reported outcome moves the state, and the fail-fast
//! classification of a failed merge into a conflict that needs a human, a
//! benign failure that a plain commit finalizes, or a commit failure.
//!
//! The caller loops: it asks the session for the next [`Action`], performs
//! it, and hands the outcome back through the matching `on_...` method,
//! until the action is [`Action::Finish`]; it then maps the [`RunOutcome`]
//! to the process exit status at that single boundary.

use vstd::prelude::*;
use crate::resolver::ResolutionError;

verus! {

/// Where a run stands.
#[derive(Clone, Copy, Debug, PartialEq, Eq, Structural)]
pub enum Phase {
    /// Nothing has happened yet; the fetch of all remotes is owed.
    Start,
    /// The fetch completed; creating the destination branch is owed.
    Fetched,
    /// The clone sits on a freshly created destination branch; resolving
    /// the labeled branches is owed.
    OnDestinationBranch,
    /// Branches remain; merging the current one is owed.
    Merging,
    /// The last merge command failed; checking the working tree for
    /// conflicted paths is owed.
    CheckingConflicts,
    /// The failed merge left no conflicted path; a plain finalizing commit
    /// is owed.
    AwaitingCommit,
    /// Every matching branch merged cleanly (or none matched): success.
    Done,
    /// A fatal condition ended the run.
    Aborted,
}

/// The operation the caller must perform next and report back.
#[derive(Clone, Copy, Debug, PartialEq, Eq, Structural)]
pub enum Action {
    /// Run a full fetch of all remotes and report whether it succeeded.
    RunFetch,
    /// Create or reset the destination branch at the remote default
    /// branch's tip, without upstream tracking, and report whether that
    /// succeeded.
    RunCheckout,
    /// Resolve the labeled branches through the remote API and report the
    /// resulting sequence, or the resolution error.
    RunResolve,
    /// Merge the current branch — non-fast-forward, producing a merge
    /// commit and a merge-log entry, reusing recorded conflict resolutions
    /// — and report whether the command succeeded.
    RunMerge,
    /// Report whether any path of the working tree is in a conflicted
    /// state.
    CheckConflicts,
    /// Attempt to finalize the pending merge with a plain commit and
    /// report whether that succeeded.
    FinalizeCommit,
    /// The run is over; take the outcome and stop.
    Finish,
}

/// The fatal condition that ended a run.
#[derive(Debug, PartialEq, Eq)]
pub enum FatalReason {
    /// The fetch of all remotes did not complete successfully.
    FetchFailed,
    /// The destination branch could not be created or reset.
    CheckoutFailed,
    /// The labeled branches could not be resolved.
    ResolutionFailed(ResolutionError),
    /// Merging the named branch left conflicted paths; a human must
    /// resolve and finalize, or abort, the merge before re-running.
    MergeConflict(String),
    /// Merging the named branch failed without conflicted paths, and the
    /// finalizing commit failed too.
    MergeCommitFailed(String),
}

/// The tagged result of a whole run. The caller performs the actual
/// process termination and exit-code mapping at a single boundary.
#[derive(Debug, PartialEq, Eq)]
pub enum RunOutcome {
    /// Every matching branch merged cleanly.
    Success,
    /// The run stopped at a fatal condition.
    Fatal(FatalReason),
}

/// The classification of one branch's merge attempt.
#[derive(Clone, Copy, Debug, PartialEq, Eq, Structural)]
pub enum MergeOutcome {
    /// The branch is merged; the run proceeds to the next one.
    Clean,
    /// The merge left conflicted paths; a human must intervene.
    Conflict,
    /// The merge failed without conflicts and the finalizing commit
    /// failed as well.
    CommitFailed,
}

/// How one branch's attempt is classified from the three signals the
/// underlying tool gives. The merge command's own exit conflates "nothing
/// to merge" with "merge failed", so a failure is a conflict only when the
/// checked repository status shows conflicted paths; otherwise a
/// successful finalizing commit still counts as clean.
pub open spec fn classification(merge_ok: bool, conflicted_paths: bool, commit_ok: bool) -> MergeOutcome {
    if merge_ok {
        MergeOutcome::Clean
    } else if conflicted_paths {
        MergeOutcome::Conflict
    } else if commit_ok {
        MergeOutcome::Clean
    } else {
        MergeOutcome::CommitFailed
    }
}

/// Classify one branch's merge attempt from the merge command's success,
/// the presence of conflicted paths, and the finalizing commit's success.
/// Only the signals that the classification reads are consulted: a failed
/// merge is a conflict exactly when conflicted paths exist, whatever the
/// commit would do.
pub fn classify_merge(merge_ok: bool, conflicted_paths: bool, commit_ok: bool) -> (o: MergeOutcome)
    ensures
        o == classification(merge_ok, conflicted_paths, commit_ok),
{
    if merge_ok {
        MergeOutcome::Clean
    } else if conflicted_paths {
        MergeOutcome::Conflict
    } else if commit_ok {
        MergeOutcome::Clean
    } else {
        MergeOutcome::CommitFailed
    }
}

/// Whether any path of the working tree stands in a conflicted state,
/// given one flag per status entry (the flag says whether that entry is
/// exactly the conflicted status).
pub fn any_conflicted(flags: &Vec<bool>) -> (r: bool)
    ensures
        r == exists|i: int| 0 <= i < flags@.len() && flags@[i],
{
    let mut i: usize = 0;
    while i < flags.len()
        invariant
            i <= flags.len(),
            forall|j: int| 0 <= j < i ==> !flags@[j],
        decreases flags.len() - i,
    {
        if flags[i] {
            return true;
        }
        i = i + 1;
    }
    false
}

/// One outcome handed back to the state machine, as the model sees it.
pub enum Event {
    /// Whether the fetch of all remotes succeeded.
    FetchDone(bool),
    /// Whether the destination branch was created or reset.
    CheckoutDone(bool),
    /// The resolver's reply: the branch sequence in the order the remote
    /// returned it, or the resolution error.
    Resolved(Result<Seq<String>, ResolutionError>),
    /// Whether the merge command succeeded.
    MergeDone(bool),
    /// Whether any path of the working tree is conflicted.
    ConflictsChecked(bool),
    /// Whether the finalizing commit succeeded.
    CommitDone(bool),
}

/// The mathematical state of a session.
#[verifier::ext_equal]
pub struct SessionModel {
    /// Where the run stands.
    pub phase: Phase,
    /// The label the run was asked for.
    pub label: String,
    /// The destination branch the run creates and merges into.
    pub dest_branch: String,
    /// The resolved branches, in resolution order; empty until resolution.
    pub branches: Seq<String>,
    /// How many branches finished cleanly; the next one to merge.
    pub next_index: int,
    /// The fatal condition, exactly when the run aborted.
    pub fatal: Option<FatalReason>,
}

/// Well-formedness of a session's state.
pub open spec fn wf(m: SessionModel) -> bool {
    &&& 0 <= m.next_index <= m.branches.len()
    &&& (m.phase == Phase::Merging || m.phase == Phase::CheckingConflicts
        || m.phase == Phase::AwaitingCommit) ==> m.next_index < m.branches.len()
    &&& (m.phase == Phase::Aborted <==> m.fatal is Some)
    &&& (m.phase == Phase::Start || m.phase == Phase::Fetched
        || m.phase == Phase::OnDestinationBranch) ==> m.branches.len() == 0 && m.next_index == 0
    &&& m.phase == Phase::Done ==> m.next_index == m.branches.len()
}

/// The state a fresh session starts in.
pub open spec fn init_model(label: String, dest_branch: String) -> SessionModel {
    SessionModel {
        phase: Phase::Start,
        label: label,
        dest_branch: dest_branch,
        branches: Seq::empty(),
        next_index: 0,
        fatal: None,
    }
}

/// The state after one branch finished cleanly: on to the next, or to
/// `Done` past the last.
pub open spec fn advanced(m: SessionModel) -> SessionModel {
    SessionModel {
        phase: if m.next_index + 1 == m.branches.len() {
            Phase::Done
        } else {
            Phase::Merging
        },
        next_index: m.next_index + 1,
        ..m
    }
}

/// The transition of the state machine: the state after one event. An
/// event that does not belong to the current phase leaves the state
/// unchanged; in particular no event leads out of `Done` or `Aborted`.
pub open spec fn apply(m: SessionModel, e: Event) -> SessionModel {
    match (m.phase, e) {
        (Phase::Start, Event::FetchDone(ok)) => if ok {
            SessionModel { phase: Phase::Fetched, ..m }
        } else {
            SessionModel { phase: Phase::Aborted, fatal: Some(FatalReason::FetchFailed), ..m }
        },
        (Phase::Fetched, Event::CheckoutDone(ok)) => if ok {
            SessionModel { phase: Phase::OnDestinationBranch, ..m }
        } else {
            SessionModel { phase: Phase::Aborted, fatal: Some(FatalReason::CheckoutFailed), ..m }
        },
        (Phase::OnDestinationBranch, Event::Resolved(reply)) => match reply {
            Ok(bs) => SessionModel {
                phase: if bs.len() == 0 {
                    Phase::Done
                } else {
                    Phase::Merging
                },
                branches: bs,
                next_index: 0,
                ..m
            },
            Err(err) => SessionModel {
                phase: Phase::Aborted,
                fatal: Some(FatalReason::ResolutionFailed(err)),
                ..m
            },
        },
        (Phase::Merging, Event::MergeDone(ok)) => if ok {
            advanced(m)
        } else {
            SessionModel { phase: Phase::CheckingConflicts, ..m }
        },
        (Phase::CheckingConflicts, Event::ConflictsChecked(conflicted)) => if conflicted {
            SessionModel {
                phase: Phase::Aborted,
                fatal: Some(FatalReason::MergeConflict(m.branches[m.next_index])),
                ..m
            }
        } else {
            SessionModel { phase: Phase::AwaitingCommit, ..m }
        },
        (Phase::AwaitingCommit, Event::CommitDone(ok)) => if ok {
            advanced(m)
        } else {
            SessionModel {
                phase: Phase::Aborted,
                fatal: Some(FatalReason::MergeCommitFailed(m.branches[m.next_index])),
                ..m
            }
        },
        _ => m,
    }
}

/// The operation owed in each phase.
pub open spec fn action_of(m: SessionModel) -> Action {
    match m.phase {
        Phase::Start => Action::RunFetch,
        Phase::Fetched => Action::RunCheckout,
        Phase::OnDestinationBranch => Action::RunResolve,
        Phase::Merging => Action::RunMerge,
        Phase::CheckingConflicts => Action::CheckConflicts,
        Phase::AwaitingCommit => Action::FinalizeCommit,
        Phase::Done => Action::Finish,
        Phase::Aborted => Action::Finish,
    }
}

/// The resolver's reply as the model sees it.
pub open spec fn resolved_event(reply: Result<Vec<String>, ResolutionError>) -> Event {
    match reply {
        Ok(bs) => Event::Resolved(Ok(bs@)),
        Err(e) => Event::Resolved(Err(e)),
    }
}

/// The state after a whole sequence of events, applied in order.
pub open spec fn apply_all(m: SessionModel, events: Seq<Event>) -> SessionModel
    decreases events.len(),
{
    if events.len() == 0 {
        m
    } else {
        apply_all(apply(m, events[0]), events.drop_first())
    }
}

/// The branches whose merge a run attempts: each time a merge outcome is
/// consumed in the merging phase, the branch it belonged to, in order.
pub open spec fn merges_of(m: SessionModel, events: Seq<Event>) -> Seq<String>
    decreases events.len(),
{
    if events.len() == 0 {
        Seq::empty()
    } else {
        let rest = merges_of(apply(m, events[0]), events.drop_first());
        if m.phase == Phase::Merging && events[0] is MergeDone {
            seq![m.branches[m.next_index]] + rest
        } else {
            rest
        }
    }
}

/// One run of the orchestrator. The caller performs each [`Action`] the
/// session asks for and reports the outcome back, until the action is
/// [`Action::Finish`]; every transition follows [`apply`].
pub struct Session {
    phase: Phase,
    label: String,
    dest_branch: String,
    branches: Vec<String>,
    next_index: usize,
    fatal: Option<FatalReason>,
}

impl View for Session {
    type V = SessionModel;

    closed spec fn view(&self) -> SessionModel {
        SessionModel {
            phase: self.phase,
            label: self.label,
            dest_branch: self.dest_branch,
            branches: self.branches@,
            next_index: self.next_index as int,
            fatal: self.fatal,
        }
    }
}

impl Session {
    /// Begin a run for the given label and destination branch; nothing has
    /// been fetched, resolved or merged yet.
    pub fn new(label: String, dest_branch: String) -> (s: Session)
        ensures
            s@ == init_model(label, dest_branch),
            wf(s@),
    {
        let s = Session {
            phase: Phase::Start,
            label: label,
            dest_branch: dest_branch,
            branches: Vec::new(),
            next_index: 0,
            fatal: None,
        };
        proof {
            assert(s@ =~= init_model(s@.label, s@.dest_branch));
        }
        s
    }

    /// The operation the caller must perform next.
    pub fn next_action(&self) -> (a: Action)
        ensures
            a == action_of(self@),
    {
        match self.phase {
            Phase::Start => Action::RunFetch,
            Phase::Fetched => Action::RunCheckout,
            Phase::OnDestinationBranch => Action::RunResolve,
            Phase::Merging => Action::RunMerge,
            Phase::CheckingConflicts => Action::CheckConflicts,
            Phase::AwaitingCommit => Action::FinalizeCommit,
            Phase::Done => Action::Finish,
            Phase::Aborted => Action::Finish,
        }
    }

    /// Where the run stands.
    pub fn phase(&self) -> (p: Phase)
        ensures
            p == self@.phase,
    {
        self.phase
    }

    /// The label the run was asked for.
    pub fn label(&self) -> (l: &String)
        ensures
            *l == self@.label,
    {
        &self.label
    }

    /// The destination branch the run creates and merges into.
    pub fn dest_branch(&self) -> (d: &String)
        ensures
            *d == self@.dest_branch,
    {
        &self.dest_branch
    }

    /// The branch whose merge is owed or under classification.
    pub fn current_branch(&self) -> (b: &String)
        requires
            wf(self@),
            self@.phase == Phase::Merging || self@.phase == Phase::CheckingConflicts
                || self@.phase == Phase::AwaitingCommit,
        ensures
            *b == self@.branches[self@.next_index],
    {
        &self.branches[self.next_index]
    }

    /// Record whether the fetch of all remotes succeeded. A failure aborts
    /// the run before anything else is attempted.
    pub fn on_fetch_result(&mut self, ok: bool)
        requires
            wf(old(self)@),
            old(self)@.phase == Phase::Start,
        ensures
            final(self)@ == apply(old(self)@, Event::FetchDone(ok)),
            wf(final(self)@),
    {
        if ok {
            self.phase = Phase::Fetched;
        } else {
            self.phase = Phase::Aborted;
            self.fatal = Some(FatalReason::FetchFailed);
        }
        proof {
            assert(self@ =~= apply(old(self)@, Event::FetchDone(ok)));
        }
    }

    /// Record whether the destination branch was created or reset at the
    /// remote default branch's tip. A failure aborts the run.
    pub fn on_checkout_result(&mut self, ok: bool)
        requires
            wf(old(self)@),
            old(self)@.phase == Phase::Fetched,
        ensures
            final(self)@ == apply(old(self)@, Event::CheckoutDone(ok)),
            wf(final(self)@),
    {
        if ok {
            self.phase = Phase::OnDestinationBranch;
        } else {
            self.phase = Phase::Aborted;
            self.fatal = Some(FatalReason::CheckoutFailed);
        }
        proof {
            assert(self@ =~= apply(old(self)@, Event::CheckoutDone(ok)));
        }
    }

    /// Record the resolver's reply. The sequence is taken as returned — no
    /// reordering, no deduplication — and is resolved exactly once per run:
    /// an empty sequence completes the run, a non-empty one owes the first
    /// merge, and a resolution error aborts the run.
    pub fn on_resolution(&mut self, reply: Result<Vec<String>, ResolutionError>)
        requires
            wf(old(self)@),
            old(self)@.phase == Phase::OnDestinationBranch,
        ensures
            final(self)@ == apply(old(self)@, resolved_event(reply)),
            wf(final(self)@),
    {
        match reply {
            Ok(bs) => {
                let empty = bs.len() == 0;
                self.branches = bs;
                self.next_index = 0;
                self.phase = if empty {
                    Phase::Done
                } else {
                    Phase::Merging
                };
            },
            Err(e) => {
                self.phase = Phase::Aborted;
                self.fatal = Some(FatalReason::ResolutionFailed(e));
            },
        }
        proof {
            assert(self@ =~= apply(old(self)@, resolved_event(reply)));
        }
    }

    /// Record whether the merge command for the current branch succeeded.
    /// Success means a clean outcome and moves on to the next branch (or
    /// completes the run past the last); failure owes the conflicted-path
    /// check — the exit code alone never decides.
    pub fn on_merge_result(&mut self, ok: bool)
        requires
            wf(old(self)@),
            old(self)@.phase == Phase::Merging,
        ensures
            final(self)@ == apply(old(self)@, Event::MergeDone(ok)),
            wf(final(self)@),
    {
        if ok {
            self.advance();
        } else {
            self.phase = Phase::CheckingConflicts;
        }
        proof {
            assert(self@ =~= apply(old(self)@, Event::MergeDone(ok)));
        }
    }

    /// Record whether the working tree holds conflicted paths after the
    /// failed merge. Conflicts abort the run naming the branch — a human
    /// must resolve or abort the merge, and no further branch is attempted;
    /// otherwise the finalizing commit is owed.
    pub fn on_conflicts_checked(&mut self, conflicted: bool)
        requires
            wf(old(self)@),
            old(self)@.phase == Phase::CheckingConflicts,
        ensures
            final(self)@ == apply(old(self)@, Event::ConflictsChecked(conflicted)),
            wf(final(self)@),
    {
        if conflicted {
            let branch = &self.branches[self.next_index];
            let reason = FatalReason::MergeConflict(branch.clone());
            self.phase = Phase::Aborted;
            self.fatal = Some(reason);
        } else {
            self.phase = Phase::AwaitingCommit;
        }
        proof {
            assert(self@ =~= apply(old(self)@, Event::ConflictsChecked(conflicted)));
        }
    }

    /// Record whether the plain finalizing commit succeeded. Success turns
    /// the failed merge into a clean outcome and the run continues; failure
    /// aborts the run naming the branch.
    pub fn on_commit_result(&mut self, ok: bool)
        requires
            wf(old(self)@),
            old(self)@.phase == Phase::AwaitingCommit,
        ensures
            final(self)@ == apply(old(self)@, Event::CommitDone(ok)),
            wf(final(self)@),
    {
        if ok {
            self.advance();
        } else {
            let branch = &self.branches[self.next_index];
            let reason = FatalReason::MergeCommitFailed(branch.clone());
            self.phase = Phase::Aborted;
            self.fatal = Some(reason);
        }
        proof {
            assert(self@ =~= apply(old(self)@, Event::CommitDone(ok)));
        }
    }

    /// The current branch finished cleanly: on to the next, or done.
    fn advance(&mut self)
        requires
            wf(old(self)@),
            old(self)@.phase == Phase::Merging || old(self)@.phase == Phase::AwaitingCommit,
        ensures
            final(self)@ == advanced(old(self)@),
    {
        let total = self.branches.len();
        proof {
            assert(self.next_index < total);
        }
        self.next_index = self.next_index + 1;
        self.phase = if self.next_index == total {
            Phase::Done
        } else {
            Phase::Merging
        };
        proof {
            assert(self@ =~= advanced(old(self)@));
        }
    }

    /// The outcome of a finished run: success when every matching branch
    /// merged cleanly, otherwise the fatal condition that ended it.
    pub fn outcome(self) -> (r: RunOutcome)
        requires
            wf(self@),
            self@.phase == Phase::Done || self@.phase == Phase::Aborted,
        ensures
            self@.phase == Phase::Done ==> r == RunOutcome::Success,
            self@.phase == Phase::Aborted ==> r == RunOutcome::Fatal(self@.fatal->0),
    {
        match self.fatal {
            None => RunOutcome::Success,
            Some(reason) => RunOutcome::Fatal(reason),
        }
    }
}

/// The process exit status an outcome maps to: zero on full success, one
/// on any fatal condition — failure kinds are not distinguished.
pub fn exit_code(outcome: &RunOutcome) -> (code: i32)
    ensures
        *outcome is Success ==> code == 0,
        *outcome is Fatal ==> code == 1,
{
    match outcome {
        RunOutcome::Success => 0,
        RunOutcome::Fatal(_) => 1,
    }
}

/// The transition preserves well-formedness.
pub proof fn lemma_apply_preserves_wf(m: SessionModel, e: Event)
    requires
        wf(m),
    ensures
        wf(apply(m, e)),
{
}

/// A whole event sequence preserves well-formedness too.
pub proof fn lemma_apply_all_preserves_wf(m: SessionModel, events: Seq<Event>)
    requires
        wf(m),
    ensures
        wf(apply_all(m, events)),
    decreases events.len(),
{
    if events.len() > 0 {
        lemma_apply_preserves_wf(m, events[0]);
        lemma_apply_all_preserves_wf(apply(m, events[0]), events.drop_first());
    }
}

/// A finished or aborted run is final: no later event moves it, and no
/// further branch is ever attempted.
pub proof fn lemma_terminal_phase_is_final(m: SessionModel, events: Seq<Event>)
    requires
        m.phase == Phase::Done || m.phase == Phase::Aborted,
    ensures
        apply_all(m, events) == m,
        merges_of(m, events) == Seq::<String>::empty(),
    decreases events.len(),
{
    if events.len() > 0 {
        assert(apply(m, events[0]) == m);
        lemma_terminal_phase_is_final(m, events.drop_first());
    }
}

/// A run consumes its events in order: the first event steps the state
/// once, and the merge attempted at that step — if the state owed one —
/// is the current branch.
pub proof fn lemma_run_step(m: SessionModel, e: Event, rest: Seq<Event>)
    ensures
        apply_all(m, seq![e] + rest) == apply_all(apply(m, e), rest),
        merges_of(m, seq![e] + rest) == (if m.phase == Phase::Merging && e is MergeDone {
            seq![m.branches[m.next_index]] + merges_of(apply(m, e), rest)
        } else {
            merges_of(apply(m, e), rest)
        }),
{
    let s = seq![e] + rest;
    assert(s.len() == 1 + rest.len());
    assert(s[0] == e);
    assert(s.drop_first() =~= rest);
}

/// A run of clean merge outcomes, one per remaining branch.
pub open spec fn clean_events(n: int) -> Seq<Event> {
    Seq::new(n as nat, |i: int| Event::MergeDone(true))
}

/// Merging the remaining branches with every merge succeeding attempts
/// exactly those branches, in order, and completes the run: nothing else
/// of the state changes.
pub proof fn lemma_clean_merges_in_order(m: SessionModel, n: int)
    requires
        wf(m),
        m.phase == Phase::Merging,
        n == m.branches.len() - m.next_index,
    ensures
        apply_all(m, clean_events(n)) == (SessionModel {
            phase: Phase::Done,
            next_index: m.branches.len() as int,
            ..m
        }),
        merges_of(m, clean_events(n)) == m.branches.subrange(
            m.next_index,
            m.branches.len() as int,
        ),
    decreases n,
{
    let es = clean_events(n);
    let e = Event::MergeDone(true);
    assert(es.len() == n);
    assert(es[0] == e);
    assert(es.drop_first() =~= clean_events(n - 1));
    let stepped = apply(m, e);
    assert(stepped == advanced(m));
    if n == 1 {
        assert(stepped.phase == Phase::Done);
        assert(clean_events(0).len() == 0);
        assert(apply_all(stepped, clean_events(0)) == stepped);
        assert(stepped =~= (SessionModel {
            phase: Phase::Done,
            next_index: m.branches.len() as int,
            ..m
        }));
        assert(merges_of(stepped, clean_events(0)) == Seq::<String>::empty());
        assert(merges_of(m, es) == seq![m.branches[m.next_index]] + Seq::<String>::empty());
        assert(seq![m.branches[m.next_index]] + Seq::<String>::empty() =~= m.branches.subrange(
            m.next_index,
            m.branches.len() as int,
        ));
    } else {
        assert(stepped.phase == Phase::Merging);
        lemma_apply_preserves_wf(m, e);
        lemma_clean_merges_in_order(stepped, n - 1);
        assert(apply_all(m, es) == apply_all(stepped, clean_events(n - 1)));
        assert(apply_all(stepped, clean_events(n - 1)) =~= (SessionModel {
            phase: Phase::Done,
            next_index: m.branches.len() as int,
            ..m
        }));
        assert(merges_of(m, es) == seq![m.branches[m.next_index]] + merges_of(
            stepped,
            clean_events(n - 1),
        ));
        assert(seq![m.branches[m.next_index]] + m.branches.subrange(
            m.next_index + 1,
            m.branches.len() as int,
        ) =~= m.branches.subrange(m.next_index, m.branches.len() as int));
    }
}

/// Resolution order is execution order: a run that has just resolved the
/// branch sequence and sees every merge command succeed attempts exactly
/// that sequence — no reordering, no skipping, no deduplication — and
/// completes.
pub proof fn lemma_resolution_order_is_merge_order(m: SessionModel, bs: Seq<String>)
    requires
        wf(m),
        m.phase == Phase::OnDestinationBranch,
    ensures
        ({
            let resolved = apply(m, Event::Resolved(Ok(bs)));
            &&& resolved.branches == bs
            &&& merges_of(resolved, clean_events(bs.len() as int)) == bs
            &&& apply_all(resolved, clean_events(bs.len() as int)).phase == Phase::Done
        }),
{
    let resolved = apply(m, Event::Resolved(Ok(bs)));
    lemma_apply_preserves_wf(m, Event::Resolved(Ok(bs)));
    if bs.len() == 0 {
        assert(clean_events(0).len() == 0);
        assert(merges_of(resolved, clean_events(0)) =~= bs);
    } else {
        lemma_clean_merges_in_order(resolved, bs.len() as int);
        assert(bs.subrange(0, bs.len() as int) =~= bs);
    }
}

/// Fail-fast on conflict: when a merge command fails and the
/// conflicted-path check comes back positive, the run aborts naming the
/// branch under merge, and whatever events may still arrive, the state
/// never moves again and no subsequent branch is attempted. The check is
/// the single point of truth: a failed merge is a conflict exactly when
/// conflicted paths exist, whatever the finalizing commit would report.
pub proof fn lemma_conflict_halts(m: SessionModel, later: Seq<Event>)
    requires
        wf(m),
        m.phase == Phase::Merging,
    ensures
        ({
            let failed = apply(m, Event::MergeDone(false));
            let aborted = apply(failed, Event::ConflictsChecked(true));
            &&& failed.phase == Phase::CheckingConflicts
            &&& aborted.phase == Phase::Aborted
            &&& aborted.fatal == Some(FatalReason::MergeConflict(m.branches[m.next_index]))
            &&& apply_all(aborted, later) == aborted
            &&& merges_of(aborted, later) == Seq::<String>::empty()
            &&& forall|commit_ok: bool| classification(false, true, commit_ok)
                == MergeOutcome::Conflict
        }),
{
    let failed = apply(m, Event::MergeDone(false));
    let aborted = apply(failed, Event::ConflictsChecked(true));
    lemma_terminal_phase_is_final(aborted, later);
}

/// A merge failure without conflicted paths that the finalizing commit
/// repairs counts as clean: the run records no fatal condition and moves
/// on to the next branch (or completes past the last) — distinguished
/// from the conflict path by the checked repository status, never by the
/// merge exit alone.
pub proof fn lemma_commit_recovers(m: SessionModel)
    requires
        wf(m),
        m.phase == Phase::Merging,
    ensures
        ({
            let failed = apply(m, Event::MergeDone(false));
            let checked = apply(failed, Event::ConflictsChecked(false));
            let committed = apply(checked, Event::CommitDone(true));
            &&& failed.phase == Phase::CheckingConflicts
            &&& checked.phase == Phase::AwaitingCommit
            &&& committed.fatal is None
            &&& committed.next_index == m.next_index + 1
            &&& committed.branches == m.branches
            &&& (committed.phase == Phase::Merging || committed.phase == Phase::Done)
            &&& classification(false, false, true) == MergeOutcome::Clean
        }),
{
}

/// Re-running reproduces the plan: after a successful fetch, checkout and
/// resolution, the state is a function of the label, the destination
/// branch and the resolver's reply alone — the same inputs give the same
/// destination branch and the same candidate branches in the same order,
/// with nothing carried over from any earlier run.
pub proof fn lemma_rerun_reproduces_plan(label: String, dest_branch: String, bs: Seq<String>)
    ensures
        ({
            let planned = apply(
                apply(
                    apply(init_model(label, dest_branch), Event::FetchDone(true)),
                    Event::CheckoutDone(true),
                ),
                Event::Resolved(Ok(bs)),
            );
            &&& planned.label == label
            &&& planned.dest_branch == dest_branch
            &&& planned.branches == bs
            &&& planned.next_index == 0
            &&& planned.fatal is None
            &&& (bs.len() == 0 ==> planned.phase == Phase::Done)
            &&& (bs.len() > 0 ==> planned.phase == Phase::Merging)
        }),
{
}

/// A label matching zero pull requests completes the run successfully:
/// the fetch and the checkout are performed, the resolution returns the
/// empty sequence, the run ends in success, and not a single merge is
/// attempted — whatever events may still arrive.
pub proof fn lemma_empty_resolution_completes(
    label: String,
    dest_branch: String,
    later: Seq<Event>,
)
    ensures
        ({
            let started = init_model(label, dest_branch);
            let fetched = apply(started, Event::FetchDone(true));
            let on_dest = apply(fetched, Event::CheckoutDone(true));
            let resolved = apply(on_dest, Event::Resolved(Ok(Seq::<String>::empty())));
            let setup = seq![
                Event::FetchDone(true),
                Event::CheckoutDone(true),
                Event::Resolved(Ok(Seq::<String>::empty())),
            ];
            &&& fetched.phase == Phase::Fetched
            &&& on_dest.phase == Phase::OnDestinationBranch
            &&& resolved.phase == Phase::Done
            &&& resolved.fatal is None
            &&& apply_all(started, setup + later) == resolved
            &&& merges_of(started, setup + later) == Seq::<String>::empty()
        }),
{
    let started = init_model(label, dest_branch);
    let fetch_done = Event::FetchDone(true);
    let checkout_done = Event::CheckoutDone(true);
    let resolve_done = Event::Resolved(Ok(Seq::<String>::empty()));
    let fetched = apply(started, fetch_done);
    let on_dest = apply(fetched, checkout_done);
    let resolved = apply(on_dest, resolve_done);
    let setup = seq![fetch_done, checkout_done, resolve_done];
    assert(setup + later =~= seq![fetch_done] + (seq![checkout_done] + (seq![resolve_done]
        + later)));
    lemma_run_step(started, fetch_done, seq![checkout_done] + (seq![resolve_done] + later));
    lemma_run_step(fetched, checkout_done, seq![resolve_done] + later);
    lemma_run_step(on_dest, resolve_done, later);
    lemma_terminal_phase_is_final(resolved, later);
}

} // verus!
