//! The decisions of a backup pass over a transfer plan, as a state machine:
//! the caller performs each action and reports what came of it.
use vstd::prelude::*;

verus! {

/// The answer to the continue prompt that means "skip this file and go on".
pub const CONTINUE_ANSWER: u32 = 1;

/// What came of the last action.
#[derive(Clone, Copy, Debug, PartialEq, Eq, Structural)]
pub enum BackupEvent {
    /// The remote bytes of the current file were read.
    Retrieved,
    /// Reading the current file failed.
    RetrievalFailed,
    /// The user's answer to the continue prompt.
    Answered(u32),
    /// The backup copy of the current file was written.
    Written,
    /// A local file already stands where the backup copy would go.
    DestinationExists,
}

/// What the caller is to do next; the index is into the transfer plan.
#[derive(Clone, Copy, Debug, PartialEq, Eq, Structural)]
pub enum BackupAction {
    /// Read this file from the remote side.
    Retrieve(usize),
    /// Tell the user that this file failed and ask whether to go on.
    AskToContinue(usize),
    /// Write the bytes read to this file's backup copy (never overwriting).
    Write(usize),
    /// The backup pass is over.
    Finish,
    /// The backup copy of this file already existed: a usage error that
    /// ends the run.
    Fail(usize),
}

/// Where a backup pass stands.
#[derive(Clone, Copy, Debug, PartialEq, Eq, Structural)]
pub enum BackupState {
    Retrieving(usize),
    Asking(usize),
    Writing(usize),
    Finished,
    Failed(usize),
}

/// A backup pass over a plan of `total` files.
pub struct BackupRun {
    pub total: usize,
    pub state: BackupState,
}

/// Move on to file `next`, or finish when there is none.
pub open spec fn advance(next: usize, total: usize) -> (BackupState, BackupAction) {
    if next < total {
        (BackupState::Retrieving(next), BackupAction::Retrieve(next))
    } else {
        (BackupState::Finished, BackupAction::Finish)
    }
}

/// The action that a state waits on.
pub open spec fn pending_spec(s: BackupState) -> BackupAction {
    match s {
        BackupState::Retrieving(i) => BackupAction::Retrieve(i),
        BackupState::Asking(i) => BackupAction::AskToContinue(i),
        BackupState::Writing(i) => BackupAction::Write(i),
        BackupState::Finished => BackupAction::Finish,
        BackupState::Failed(i) => BackupAction::Fail(i),
    }
}

/// The next state and action after `e` in state `s`. An event that does
/// not answer the pending action changes nothing and repeats that action.
pub open spec fn transition(s: BackupState, total: usize, e: BackupEvent) -> (
    BackupState,
    BackupAction,
) {
    match (s, e) {
        (BackupState::Retrieving(i), BackupEvent::Retrieved) => (
            BackupState::Writing(i),
            BackupAction::Write(i),
        ),
        (BackupState::Retrieving(i), BackupEvent::RetrievalFailed) => (
            BackupState::Asking(i),
            BackupAction::AskToContinue(i),
        ),
        (BackupState::Asking(i), BackupEvent::Answered(c)) => if c == CONTINUE_ANSWER {
            advance((i + 1) as usize, total)
        } else {
            (BackupState::Finished, BackupAction::Finish)
        },
        (BackupState::Writing(i), BackupEvent::Written) => advance((i + 1) as usize, total),
        (BackupState::Writing(i), BackupEvent::DestinationExists) => (
            BackupState::Failed(i),
            BackupAction::Fail(i),
        ),
        _ => (s, pending_spec(s)),
    }
}

/// Every index that a state holds is within the plan.
pub open spec fn state_in_plan(s: BackupState, total: usize) -> bool {
    match s {
        BackupState::Retrieving(i) => i < total,
        BackupState::Asking(i) => i < total,
        BackupState::Writing(i) => i < total,
        BackupState::Failed(i) => i < total,
        BackupState::Finished => true,
    }
}

impl BackupRun {
    pub open spec fn wf(&self) -> bool {
        state_in_plan(self.state, self.total)
    }

    /// A pass over `total` files, about to read the first one (or finished
    /// at once when there is none).
    pub fn new(total: usize) -> (r: BackupRun)
        ensures
            r.wf(),
            r.total == total,
            r.state == advance(0, total).0,
    {
        let state = if total > 0 {
            BackupState::Retrieving(0)
        } else {
            BackupState::Finished
        };
        BackupRun { total, state }
    }

    /// The action the pass waits on.
    pub fn pending(&self) -> (r: BackupAction)
        ensures
            r == pending_spec(self.state),
    {
        match self.state {
            BackupState::Retrieving(i) => BackupAction::Retrieve(i),
            BackupState::Asking(i) => BackupAction::AskToContinue(i),
            BackupState::Writing(i) => BackupAction::Write(i),
            BackupState::Finished => BackupAction::Finish,
            BackupState::Failed(i) => BackupAction::Fail(i),
        }
    }

    /// Take in what came of the last action and say what to do next.
    pub fn step(&mut self, e: BackupEvent) -> (r: BackupAction)
        requires
            old(self).wf(),
        ensures
            final(self).wf(),
            final(self).total == old(self).total,
            (final(self).state, r) == transition(old(self).state, old(self).total, e),
    {
        let total = self.total;
        let (state, action) = match (self.state, e) {
            (BackupState::Retrieving(i), BackupEvent::Retrieved) => (
                BackupState::Writing(i),
                BackupAction::Write(i),
            ),
            (BackupState::Retrieving(i), BackupEvent::RetrievalFailed) => (
                BackupState::Asking(i),
                BackupAction::AskToContinue(i),
            ),
            (BackupState::Asking(i), BackupEvent::Answered(c)) => {
                if c == CONTINUE_ANSWER {
                    Self::advance(i + 1, total)
                } else {
                    (BackupState::Finished, BackupAction::Finish)
                }
            },
            (BackupState::Writing(i), BackupEvent::Written) => Self::advance(i + 1, total),
            (BackupState::Writing(i), BackupEvent::DestinationExists) => (
                BackupState::Failed(i),
                BackupAction::Fail(i),
            ),
            _ => (self.state, self.pending()),
        };
        self.state = state;
        action
    }

    fn advance(next: usize, total: usize) -> (r: (BackupState, BackupAction))
        ensures
            r == advance(next, total),
    {
        if next < total {
            (BackupState::Retrieving(next), BackupAction::Retrieve(next))
        } else {
            (BackupState::Finished, BackupAction::Finish)
        }
    }
}

/// Skipping and aborting after a failed read: the failed file is never
/// written; "continue" moves on to the next file of the plan (or finishes
/// after the last); any other answer ends the pass, and a finished pass
/// stays finished and asks for nothing more, whatever is reported to it.
pub proof fn lemma_failed_retrieval_outcomes(i: usize, total: usize, answer: u32, e: BackupEvent)
    requires
        i < total,
    ensures
        transition(BackupState::Retrieving(i), total, BackupEvent::RetrievalFailed) == (
            BackupState::Asking(i),
            BackupAction::AskToContinue(i),
        ),
        answer == CONTINUE_ANSWER ==> transition(
            BackupState::Asking(i),
            total,
            BackupEvent::Answered(answer),
        ) == advance((i + 1) as usize, total),
        answer != CONTINUE_ANSWER ==> transition(
            BackupState::Asking(i),
            total,
            BackupEvent::Answered(answer),
        ) == (BackupState::Finished, BackupAction::Finish),
        transition(BackupState::Finished, total, e) == (BackupState::Finished, BackupAction::Finish),
{
}

/// A backup copy is never written over an existing file: when the
/// destination exists the pass fails on that file, and a failed pass stays
/// failed whatever is reported to it.
pub proof fn lemma_existing_destination_fails(i: usize, total: usize, e: BackupEvent)
    requires
        i < total,
    ensures
        transition(BackupState::Writing(i), total, BackupEvent::DestinationExists) == (
            BackupState::Failed(i),
            BackupAction::Fail(i),
        ),
        transition(BackupState::Failed(i), total, e) == (
            BackupState::Failed(i),
            BackupAction::Fail(i),
        ),
{
}

} // verus!
