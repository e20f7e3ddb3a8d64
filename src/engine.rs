use vstd::prelude::*;

use crate::action::{ActionModel, ActionState};
use crate::plan::InstallPlan;

verus! {

/// What the caller is to do next on behalf of a run.
#[derive(PartialEq, Eq, Structural, Clone, Copy, Debug)]
pub enum Step {
    /// Run the action at this index forward, then report the outcome.
    Execute(usize),
    /// Undo the action at this index, then report the outcome.
    Revert(usize),
    /// Nothing is left to do.
    Finished,
}

/// An action that failed, and what it reported.
#[derive(Debug)]
pub struct ActionFailure {
    pub index: usize,
    pub message: String,
}

/// One pass over a plan: forward in plan order until an action fails, then
/// back over the completed ones in reverse order, best effort.
#[derive(Debug)]
pub struct Run {
    pub plan: InstallPlan,
    pub rolling_back: bool,
    /// Forward: the next action to look at. Back: one past it.
    pub cursor: usize,
    /// Where the way back started: the failed action, or the plan's end for
    /// a standalone revert.
    pub rollback_from: usize,
    /// The forward failure that started the way back.
    pub failure: Option<ActionFailure>,
    /// Actions reverted, in the order it happened.
    pub reverted: Vec<usize>,
    /// Reverts that failed, in the order they were tried.
    pub revert_failures: Vec<ActionFailure>,
    /// Every revert tried, successful or not, in order.
    pub revert_attempts: Vec<usize>,
}

/// The first action at or after `c` that is not completed (or the end).
pub open spec fn skip_completed(actions: Seq<ActionModel>, c: int) -> int
    decreases actions.len() - c,
{
    if 0 <= c < actions.len() && actions[c].state == ActionState::Completed {
        skip_completed(actions, c + 1)
    } else {
        c
    }
}

/// Walking back from `c`: the first position whose preceding action is
/// completed (or the start).
pub open spec fn skip_not_completed_back(actions: Seq<ActionModel>, c: int) -> int
    decreases c,
{
    if 0 < c <= actions.len() && actions[c - 1].state != ActionState::Completed {
        skip_not_completed_back(actions, c - 1)
    } else {
        c
    }
}

/// The indices `from - 1` down to `to`.
pub open spec fn descending(from: int, to: int) -> Seq<usize> {
    Seq::new((from - to) as nat, |i: int| (from - 1 - i) as usize)
}

impl Run {
    pub open spec fn actions(&self) -> Seq<ActionModel> {
        self.plan@.actions
    }

    /// Whether the run has nothing left to do.
    pub open spec fn done(&self) -> bool {
        if self.rolling_back {
            self.cursor == 0
        } else {
            self.cursor == self.actions().len()
        }
    }

    /// Whether the run is waiting for the outcome of `step`.
    pub open spec fn pending(&self) -> bool {
        if self.rolling_back {
            0 < self.cursor <= self.actions().len() && self.actions()[self.cursor - 1].state
                == ActionState::Completed
        } else {
            self.cursor < self.actions().len() && self.actions()[self.cursor as int].state
                != ActionState::Completed
        }
    }

    pub open spec fn wf(&self) -> bool {
        &&& self.cursor <= self.actions().len()
        &&& self.rollback_from <= self.actions().len()
        &&& self.actions().len() == self.plan.actions@.len()
        &&& if !self.rolling_back {
            &&& self.failure is None
            &&& self.revert_attempts@.len() == 0
            &&& forall|j: int| 0 <= j < self.cursor ==> #[trigger] self.actions()[j].state
                == ActionState::Completed
        } else {
            &&& self.cursor <= self.rollback_from
            &&& (forall|i: int, j: int|
                0 <= i < j < self.revert_attempts@.len() ==> #[trigger] self.revert_attempts@[j]
                    < #[trigger] self.revert_attempts@[i])
            &&& (forall|i: int|
                0 <= i < self.revert_attempts@.len() ==> self.cursor
                    <= #[trigger] self.revert_attempts@[i] < self.rollback_from)
            &&& self.failure is Some ==> {
                &&& self.failure->Some_0.index == self.rollback_from
                &&& self.revert_attempts@ == descending(
                    self.rollback_from as int,
                    self.cursor as int,
                )
                &&& forall|j: int| 0 <= j < self.cursor ==> #[trigger] self.actions()[j].state
                    == ActionState::Completed
            }
        }
    }

    /// Starts running `plan` forward.
    pub fn execute(plan: InstallPlan) -> (r: Run)
        ensures
            r.wf(),
            r.plan@ == plan@,
            !r.rolling_back,
            r.cursor == 0,
            r.reverted@.len() == 0,
            r.revert_failures@.len() == 0,
    {
        Run {
            plan,
            rolling_back: false,
            cursor: 0,
            rollback_from: 0,
            failure: None,
            reverted: Vec::new(),
            revert_failures: Vec::new(),
            revert_attempts: Vec::new(),
        }
    }

    /// Starts undoing `plan` (one read back from a receipt, say), last action
    /// first, without running anything forward.
    pub fn revert(plan: InstallPlan) -> (r: Run)
        ensures
            r.wf(),
            r.plan@ == plan@,
            r.rolling_back,
            r.cursor == plan@.actions.len(),
            r.rollback_from == plan@.actions.len(),
            r.failure is None,
            r.reverted@.len() == 0,
            r.revert_failures@.len() == 0,
            r.revert_attempts@.len() == 0,
    {
        let n = plan.actions.len();
        Run {
            plan,
            rolling_back: true,
            cursor: n,
            rollback_from: n,
            failure: None,
            reverted: Vec::new(),
            revert_failures: Vec::new(),
            revert_attempts: Vec::new(),
        }
    }
    /// Whether every revert tried so far succeeded: after a failure, whether
    /// the machine was left as it was before the run.
    pub fn rolled_back_cleanly(&self) -> (r: bool)
        ensures
            r == (self.revert_failures@.len() == 0),
    {
        self.revert_failures.len() == 0
    }

    /// Moves past the actions that need no work (completed ones going
    /// forward, all but completed ones going back) and says what to do next.
    pub fn next_step(&mut self) -> (r: Step)
        requires
            old(self).wf(),
        ensures
            final(self).wf(),
            final(self).plan@ == old(self).plan@,
            final(self).rolling_back == old(self).rolling_back,
            final(self).rollback_from == old(self).rollback_from,
            final(self).failure == old(self).failure,
            final(self).reverted@ == old(self).reverted@,
            final(self).revert_failures@ == old(self).revert_failures@,
            final(self).revert_attempts@ == old(self).revert_attempts@,
            !old(self).rolling_back ==> final(self).cursor == skip_completed(
                old(self).actions(),
                old(self).cursor as int,
            ),
            old(self).rolling_back ==> final(self).cursor == skip_not_completed_back(
                old(self).actions(),
                old(self).cursor as int,
            ),
            r == (if final(self).done() {
                Step::Finished
            } else if final(self).rolling_back {
                Step::Revert((final(self).cursor - 1) as usize)
            } else {
                Step::Execute(final(self).cursor)
            }),
            !final(self).done() ==> final(self).pending(),
    {
        if !self.rolling_back {
            while self.cursor < self.plan.actions.len()
                && self.plan.actions[self.cursor].state == ActionState::Completed
                invariant
                    self.wf(),
                    !self.rolling_back,
                    self.plan@ == old(self).plan@,
                    self.rollback_from == old(self).rollback_from,
                    self.failure == old(self).failure,
                    self.reverted@ == old(self).reverted@,
                    self.revert_failures@ == old(self).revert_failures@,
                    self.revert_attempts@ == old(self).revert_attempts@,
                    skip_completed(self.actions(), self.cursor as int) == skip_completed(
                        old(self).actions(),
                        old(self).cursor as int,
                    ),
                decreases self.actions().len() - self.cursor,
            {
                self.cursor = self.cursor + 1;
            }
            if self.cursor < self.plan.actions.len() {
                Step::Execute(self.cursor)
            } else {
                Step::Finished
            }
        } else {
            while self.cursor > 0 && self.plan.actions[self.cursor - 1].state
                != ActionState::Completed
                invariant
                    self.wf(),
                    self.rolling_back,
                    self.plan@ == old(self).plan@,
                    self.rollback_from == old(self).rollback_from,
                    self.failure == old(self).failure,
                    self.reverted@ == old(self).reverted@,
                    self.revert_failures@ == old(self).revert_failures@,
                    self.revert_attempts@ == old(self).revert_attempts@,
                    skip_not_completed_back(self.actions(), self.cursor as int)
                        == skip_not_completed_back(old(self).actions(), old(self).cursor as int),
                decreases self.cursor,
            {
                self.cursor = self.cursor - 1;
            }
            if self.cursor > 0 {
                Step::Revert(self.cursor - 1)
            } else {
                Step::Finished
            }
        }
    }

    /// Records the outcome of the step that `next_step` asked for. Going
    /// forward, success completes the action and moves on; failure stops the
    /// forward pass there and turns back. Going back, success marks the
    /// action reverted; failure is collected, and the pass goes on either way.
    pub fn complete(&mut self, outcome: Result<(), String>)
        requires
            old(self).wf(),
            old(self).pending(),
        ensures
            final(self).wf(),
            final(self).plan@.planner == old(self).plan@.planner,
            final(self).actions().len() == old(self).actions().len(),
            forall|j: int|
                0 <= j < old(self).actions().len() ==> (#[trigger] final(self).actions()[j]).kind
                    == old(self).actions()[j].kind,
            !old(self).rolling_back ==> {
                let k = old(self).cursor as int;
                &&& match outcome {
                    Ok(_) => {
                        &&& !final(self).rolling_back
                        &&& final(self).cursor == k + 1
                        &&& final(self).actions() == old(self).actions().update(
                            k,
                            ActionModel { state: ActionState::Completed, ..old(self).actions()[k] },
                        )
                    },
                    Err(m) => {
                        &&& final(self).rolling_back
                        &&& final(self).cursor == k
                        &&& final(self).rollback_from == k
                        &&& final(self).failure is Some
                        &&& final(self).failure->Some_0.index == k
                        &&& final(self).failure->Some_0.message@ == m@
                        &&& final(self).actions() == old(self).actions()
                    },
                }
                &&& final(self).reverted@ == old(self).reverted@
                &&& final(self).revert_failures@ == old(self).revert_failures@
            },
            old(self).rolling_back ==> {
                let k = old(self).cursor - 1;
                &&& final(self).rolling_back
                &&& final(self).cursor == k
                &&& final(self).rollback_from == old(self).rollback_from
                &&& final(self).failure == old(self).failure
                &&& final(self).revert_attempts@ == old(self).revert_attempts@.push(k as usize)
                &&& match outcome {
                    Ok(_) => {
                        &&& final(self).actions() == old(self).actions().update(
                            k,
                            ActionModel { state: ActionState::Reverted, ..old(self).actions()[k] },
                        )
                        &&& final(self).reverted@ == old(self).reverted@.push(k as usize)
                        &&& final(self).revert_failures@ == old(self).revert_failures@
                    },
                    Err(m) => {
                        &&& final(self).actions() == old(self).actions()
                        &&& final(self).reverted@ == old(self).reverted@
                        &&& final(self).revert_failures@.len() == old(
                            self,
                        ).revert_failures@.len() + 1
                        &&& final(self).revert_failures@.last().index == k
                        &&& final(self).revert_failures@.last().message@ == m@
                        &&& final(self).revert_failures@.drop_last() == old(
                            self,
                        ).revert_failures@
                    },
                }
            },
    {
        if !self.rolling_back {
            let k = self.cursor;
            match outcome {
                Ok(()) => {
                    let n = self.plan.actions.len();
                    assert(k < n);
                    let next = k + 1;
                    self.plan.actions[k].record_execute(true);
                    self.cursor = next;
                    assert(self.actions() =~= old(self).actions().update(
                        k as int,
                        ActionModel { state: ActionState::Completed, ..old(self).actions()[k as int] },
                    ));
                },
                Err(message) => {
                    self.rolling_back = true;
                    self.rollback_from = k;
                    self.failure = Some(ActionFailure { index: k, message });
                    assert(self.revert_attempts@ =~= descending(k as int, k as int));
                },
            }
        } else {
            let k = self.cursor - 1;
            match outcome {
                Ok(()) => {
                    self.plan.actions[k].record_revert(true);
                    self.reverted.push(k);
                    assert(self.actions() =~= old(self).actions().update(
                        k as int,
                        ActionModel { state: ActionState::Reverted, ..old(self).actions()[k as int] },
                    ));
                },
                Err(message) => {
                    self.revert_failures.push(ActionFailure { index: k, message });
                    assert(self.revert_failures@.drop_last() =~= old(self).revert_failures@);
                },
            }
            self.revert_attempts.push(k);
            self.cursor = k;
            if self.failure.is_some() {
                assert(self.revert_attempts@ =~= descending(
                    self.rollback_from as int,
                    self.cursor as int,
                ));
            }
        }
    }
}

/// When a forward pass fails at action `k`, the finished run has tried to
/// revert every action before `k`, in strictly descending order from `k - 1`
/// down to `0`, and none at or after `k`.
pub proof fn lemma_rollback_after_failure(run: &Run)
    requires
        run.wf(),
        run.done(),
        run.failure is Some,
    ensures
        ({
            let k = run.failure->Some_0.index as int;
            &&& run.revert_attempts@.len() == k
            &&& forall|i: int| 0 <= i < k ==> #[trigger] run.revert_attempts@[i] == k - 1 - i
        }),
{
}

/// In any run, reverts are tried in strictly descending index order, and a
/// run that turned back after a failure tries none at or after the failed action.
pub proof fn lemma_reverts_descend(run: &Run)
    requires
        run.wf(),
    ensures
        forall|i: int, j: int|
            0 <= i < j < run.revert_attempts@.len() ==> #[trigger] run.revert_attempts@[j]
                < #[trigger] run.revert_attempts@[i],
        run.failure is Some ==> forall|i: int|
            0 <= i < run.revert_attempts@.len() ==> #[trigger] run.revert_attempts@[i]
                < run.failure->Some_0.index,
{
}

} // verus!
