//! The chain orchestrator: advances each pending chain task by the state
//! of its steps' linked merge requests. A step's merge request closing
//! unmerged fails the whole task in one atomic write; the final step
//! merging completes the task; an earlier step merging asks for the next
//! step's merge request to be materialized — once: a step already linked
//! to its merge request is never asked for again. Creating that merge
//! request happens outside the library; its outcome is applied through
//! [`apply_next_step_mr`].

use vstd::prelude::*;
use crate::gitlab::GlMergeRequest;
use crate::models::{ChainmrStep, ChainmrTask};
use crate::notify::{Notifier, NotificationV};
use crate::status::{ChainmrStatus, GlMergeRequestState};
use crate::store::Store;
use crate::strutil::{spec_dec_int, i32_to_string};

verus! {

/// The task a candidate step belongs to, for title context.
#[derive(Debug)]
pub struct ChainmrTaskResult {
    pub id: i32,
    pub source_branch: String,
    pub target_branch: String,
}

/// The fields one chain reconciliation reads: a step of a pending task,
/// with its task, the task's step count, and its linked merge request's
/// stored state.
#[derive(Debug)]
pub struct ChainmrStepResult {
    pub id: i32,
    pub task_id: i32,
    pub step_number: i32,
    pub source_branch: String,
    pub target_branch: String,
    pub steps_count: i32,
    pub mr_status: Option<GlMergeRequestState>,
    pub mr_web_url: Option<String>,
    pub mr_id: Option<i32>,
    pub task: ChainmrTaskResult,
}

/// The notification title for a chain step: its task's promotion route.
pub open spec fn spec_step_title(r: ChainmrStepResult) -> Seq<char> {
    "#"@ + spec_dec_int(r.task.id as int) + ": "@ + r.task.source_branch@ + " -> "@
        + r.task.target_branch@
}

impl ChainmrStepResult {
    /// The title under which notifications for this step are raised.
    pub fn get_title(&self) -> (r: String)
        ensures
            r@ == spec_step_title(*self),
    {
        let mut r = String::from_str("#");
        let digits = i32_to_string(self.task.id);
        r.append(digits.as_str());
        r.append(": ");
        r.append(self.task.source_branch.as_str());
        r.append(" -> ");
        r.append(self.task.target_branch.as_str());
        r
    }
}

/// How many steps belong to task `task_id`.
pub open spec fn spec_steps_count(steps: Seq<ChainmrStep>, task_id: i32) -> int
    decreases steps.len(),
{
    if steps.len() == 0 {
        0
    } else {
        spec_steps_count(steps.drop_last(), task_id) + if steps.last().task_id == task_id {
            1int
        } else {
            0int
        }
    }
}

/// Some task row carries local id `id`.
pub open spec fn spec_has_task(tasks: Seq<ChainmrTask>, id: i32) -> bool {
    exists|i: int| 0 <= i < tasks.len() && #[trigger] tasks[i].id == id
}

/// The index of the task row with local id `id`.
pub open spec fn spec_task_idx(tasks: Seq<ChainmrTask>, id: i32) -> int {
    choose|i: int| 0 <= i < tasks.len() && #[trigger] tasks[i].id == id
}

/// Some step row carries local id `id`.
pub open spec fn spec_has_step(steps: Seq<ChainmrStep>, id: i32) -> bool {
    exists|i: int| 0 <= i < steps.len() && #[trigger] steps[i].id == id
}

/// The index of the step row with local id `id`.
pub open spec fn spec_step_idx(steps: Seq<ChainmrStep>, id: i32) -> int {
    choose|i: int| 0 <= i < steps.len() && #[trigger] steps[i].id == id
}

/// The steps after the step `id`'s status is overwritten.
pub open spec fn spec_step_update(
    steps: Seq<ChainmrStep>,
    id: i32,
    status: ChainmrStatus,
) -> Seq<ChainmrStep> {
    if spec_has_step(steps, id) {
        let i = spec_step_idx(steps, id);
        steps.update(i, ChainmrStep { status, ..steps[i] })
    } else {
        steps
    }
}

/// The tasks after the task `id`'s status is overwritten.
pub open spec fn spec_task_update(
    tasks: Seq<ChainmrTask>,
    id: i32,
    status: ChainmrStatus,
) -> Seq<ChainmrTask> {
    if spec_has_task(tasks, id) {
        let i = spec_task_idx(tasks, id);
        tasks.update(i, ChainmrTask { status, ..tasks[i] })
    } else {
        tasks
    }
}

/// The tasks after the task `id` completes: `WaitPipeline` when it asked
/// for its post-completion pipeline to be watched, `Success` otherwise.
pub open spec fn spec_task_complete(tasks: Seq<ChainmrTask>, id: i32) -> Seq<ChainmrTask> {
    if spec_has_task(tasks, id) {
        let i = spec_task_idx(tasks, id);
        let status = if tasks[i].watch_pipline_after_complete {
            ChainmrStatus::WaitPipeline
        } else {
            ChainmrStatus::Success
        };
        tasks.update(i, ChainmrTask { status, ..tasks[i] })
    } else {
        tasks
    }
}

/// The steps after a task fails through step `step_id`: that step and
/// every step of the task still `Created` turn `Failed`.
pub open spec fn spec_chain_fail_steps(
    steps: Seq<ChainmrStep>,
    task_id: i32,
    step_id: i32,
) -> Seq<ChainmrStep> {
    Seq::new(
        steps.len(),
        |k: int|
            if steps[k].task_id == task_id && (steps[k].id == step_id || steps[k].status
                is Created) {
                ChainmrStep { status: ChainmrStatus::Failed, ..steps[k] }
            } else {
                steps[k]
            },
    )
}

/// The step and task rows after one candidate's reconciliation: a closed
/// merge request fails the task atomically; the final step merging
/// completes the task while it is still pending; anything else waits. A
/// task that already left `Pending` is never completed again, so within
/// one pass a failed task cannot be revived.
pub open spec fn spec_apply_chain(
    steps: Seq<ChainmrStep>,
    tasks: Seq<ChainmrTask>,
    cand: ChainmrStepResult,
) -> (Seq<ChainmrStep>, Seq<ChainmrTask>) {
    match cand.mr_status {
        Some(GlMergeRequestState::Closed) => (
            spec_chain_fail_steps(steps, cand.task_id, cand.id),
            spec_task_update(tasks, cand.task_id, ChainmrStatus::Failed),
        ),
        Some(GlMergeRequestState::Merged) => {
            if cand.step_number == cand.steps_count && spec_has_task(tasks, cand.task_id)
                && tasks[spec_task_idx(tasks, cand.task_id)].status is Pending {
                (
                    spec_step_update(steps, cand.id, ChainmrStatus::Success),
                    spec_task_complete(tasks, cand.task_id),
                )
            } else {
                (steps, tasks)
            }
        },
        _ => (steps, tasks),
    }
}

/// The notification one candidate raises: one when the chain broke, none
/// otherwise.
pub open spec fn spec_chain_notes_one(cand: ChainmrStepResult) -> Seq<NotificationV> {
    match cand.mr_status {
        Some(GlMergeRequestState::Closed) => seq![
            NotificationV {
                summary: spec_step_title(cand),
                body: Some("Ошибка ChainMR: Текущий MR закрылся"@),
                action: match cand.mr_web_url {
                    Some(u) => seq![(u@, "Открыть MR"@)],
                    None => Seq::empty(),
                },
            },
        ],
        _ => Seq::empty(),
    }
}

/// A step is a candidate when its owning task exists and is still
/// `Pending`.
pub open spec fn spec_step_pending(step: ChainmrStep, tasks: Seq<ChainmrTask>) -> bool {
    exists|j: int|
        0 <= j < tasks.len() && #[trigger] tasks[j].id == step.task_id && tasks[j].status
            is Pending
}

/// The candidate steps, in storage order.
pub open spec fn spec_pending_steps(
    steps: Seq<ChainmrStep>,
    tasks: Seq<ChainmrTask>,
) -> Seq<ChainmrStep>
    decreases steps.len(),
{
    if steps.len() == 0 {
        Seq::empty()
    } else {
        let rest = spec_pending_steps(steps.drop_last(), tasks);
        if spec_step_pending(steps.last(), tasks) {
            rest.push(steps.last())
        } else {
            rest
        }
    }
}

/// The snapshot is faithful to the step row it was read from.
pub open spec fn spec_step_result_matches(
    res: ChainmrStepResult,
    step: ChainmrStep,
    tasks: Seq<ChainmrTask>,
    mrs: Seq<crate::models::WatchMr>,
    steps: Seq<ChainmrStep>,
) -> bool {
    &&& res.id == step.id
    &&& res.task_id == step.task_id
    &&& res.step_number == step.step_number
    &&& res.source_branch@ == step.source_branch@
    &&& res.target_branch@ == step.target_branch@
    &&& res.steps_count as int == spec_steps_count(steps, step.task_id)
    &&& res.task.id == step.task_id
    &&& (exists|j: int|
        0 <= j < tasks.len() && #[trigger] tasks[j].id == step.task_id
            && res.task.source_branch@ == tasks[j].source_branch@ && res.task.target_branch@
            == tasks[j].target_branch@)
    &&& match step.watch_mr_id {
        None => res.mr_status is None && res.mr_web_url is None && res.mr_id is None,
        Some(w) => {
            if exists|m: int| 0 <= m < mrs.len() && #[trigger] mrs[m].id == w {
                exists|m: int|
                    0 <= m < mrs.len() && #[trigger] mrs[m].id == w && res.mr_status == Some(
                        mrs[m].status,
                    ) && (res.mr_web_url matches Some(u) && u@ == mrs[m].web_url@) && res.mr_id
                        == Some(mrs[m].mr_id)
            } else {
                res.mr_status is None && res.mr_web_url is None && res.mr_id is None
            }
        },
    }
}

/// The index of the task `task_id` when it exists and is still pending.
fn pending_task_idx(store: &Store, task_id: i32) -> (r: Option<usize>)
    requires
        store.wf(),
    ensures
        match r {
            Some(ti) => ti < store.tasks@.len() && store.tasks@[ti as int].id == task_id
                && store.tasks@[ti as int].status is Pending,
            None => forall|j: int|
                0 <= j < store.tasks@.len() ==> !(#[trigger] store.tasks@[j].id == task_id
                    && store.tasks@[j].status is Pending),
        },
{
    match store.find_task(task_id) {
        None => None,
        Some(ti) => {
            let is_pending = match store.tasks[ti].status {
                ChainmrStatus::Pending => true,
                _ => false,
            };
            if is_pending {
                Some(ti)
            } else {
                proof {
                    assert forall|j: int| 0 <= j < store.tasks@.len() implies !(
                        #[trigger] store.tasks@[j].id == task_id && store.tasks@[j].status
                        is Pending) by {
                        if store.tasks@[j].id == task_id {
                            assert(store.tasks@[ti as int].id == task_id);
                            assert(j == ti as int);
                        }
                    }
                }
                None
            }
        },
    }
}

/// How many steps belong to task `task_id`.
fn count_steps(store: &Store, task_id: i32) -> (c: i32)
    requires
        store.steps@.len() <= i32::MAX,
    ensures
        c as int == spec_steps_count(store.steps@, task_id),
{
    let mut c: i32 = 0;
    let mut i: usize = 0;
    proof {
        assert(store.steps@.take(0) =~= Seq::<ChainmrStep>::empty());
    }
    while i < store.steps.len()
        invariant
            0 <= i <= store.steps@.len(),
            store.steps@.len() <= i32::MAX,
            0 <= c as int <= i,
            c as int == spec_steps_count(store.steps@.take(i as int), task_id),
        decreases store.steps@.len() - i,
    {
        proof {
            let t = store.steps@.take(i + 1);
            assert(t.drop_last() =~= store.steps@.take(i as int));
            assert(t.last() == store.steps@[i as int]);
        }
        if store.steps[i].task_id == task_id {
            c += 1;
        }
        i += 1;
    }
    proof {
        assert(store.steps@.take(store.steps@.len() as int) =~= store.steps@);
    }
    c
}

/// Snapshots the candidate steps of one chain pass: each step of a still
/// pending task, joined with its task, the task's step count, and the
/// stored state of its linked merge request.
pub fn load_steps(store: &Store) -> (r: Vec<ChainmrStepResult>)
    requires
        store.wf(),
        store.steps@.len() <= i32::MAX,
    ensures
        r@.len() == spec_pending_steps(store.steps@, store.tasks@).len(),
        forall|k: int|
            0 <= k < r@.len() ==> spec_step_result_matches(
                #[trigger] r@[k],
                spec_pending_steps(store.steps@, store.tasks@)[k],
                store.tasks@,
                store.mrs@,
                store.steps@,
            ),
{
    let mut r: Vec<ChainmrStepResult> = Vec::new();
    let mut i: usize = 0;
    proof {
        assert(spec_pending_steps(store.steps@.take(0), store.tasks@)
            =~= Seq::<ChainmrStep>::empty());
    }
    while i < store.steps.len()
        invariant
            store.wf(),
            0 <= i <= store.steps@.len(),
            store.steps@.len() <= i32::MAX,
            r@.len() == spec_pending_steps(store.steps@.take(i as int), store.tasks@).len(),
            forall|k: int|
                0 <= k < r@.len() ==> spec_step_result_matches(
                    #[trigger] r@[k],
                    spec_pending_steps(store.steps@.take(i as int), store.tasks@)[k],
                    store.tasks@,
                    store.mrs@,
                    store.steps@,
                ),
        decreases store.steps@.len() - i,
    {
        let step = &store.steps[i];
        match pending_task_idx(store, step.task_id) {
            Some(ti) => {
                let task = &store.tasks[ti];
                let (mr_status, mr_web_url, mr_id): (
                    Option<GlMergeRequestState>,
                    Option<String>,
                    Option<i32>,
                ) = match step.watch_mr_id {
                    Some(w) => {
                        match store.find_mr(w) {
                            Some(mi) => {
                                let row = &store.mrs[mi];
                                (Some(row.status), Some(row.web_url.clone()), Some(row.mr_id))
                            },
                            None => (None, None, None),
                        }
                    },
                    None => (None, None, None),
                };
                let res = ChainmrStepResult {
                    id: step.id,
                    task_id: step.task_id,
                    step_number: step.step_number,
                    source_branch: step.source_branch.clone(),
                    target_branch: step.target_branch.clone(),
                    steps_count: count_steps(store, step.task_id),
                    mr_status,
                    mr_web_url,
                    mr_id,
                    task: ChainmrTaskResult {
                        id: task.id,
                        source_branch: task.source_branch.clone(),
                        target_branch: task.target_branch.clone(),
                    },
                };
                proof {
                    assert(store.tasks@[ti as int].id == step.task_id);
                }
                r.push(res);
            },
            None => {
                proof {
                    assert(!spec_step_pending(store.steps@[i as int], store.tasks@));
                }
            },
        }
        proof {
            let t = store.steps@.take(i + 1);
            assert(t.drop_last() =~= store.steps@.take(i as int));
            assert(t.last() == store.steps@[i as int]);
        }
        i += 1;
    }
    proof {
        assert(store.steps@.take(store.steps@.len() as int) =~= store.steps@);
    }
    r
}

/// A request to materialize the next step of a chain: create its merge
/// request and register it for watching, marking the prior step done in
/// the same write.
#[derive(Debug)]
pub struct ChainAdvance {
    pub task_id: i32,
    pub prior_step_id: i32,
    pub next_step_id: i32,
    pub source_branch: String,
    pub target_branch: String,
}

/// Reconciles one candidate step. Hands back the advance request when an
/// earlier-than-final step merged and the following step exists and is
/// not yet materialized: a step already linked to a merge request is
/// never asked for again, so one advance creates one merge request.
pub fn chainmr_step_row(
    store: &mut Store,
    cand: &ChainmrStepResult,
    notifier: &mut Notifier,
) -> (adv: Option<ChainAdvance>)
    requires
        old(store).wf(),
    ensures
        final(store).wf(),
        final(store).steps@ == spec_apply_chain(old(store).steps@, old(store).tasks@, *cand).0,
        final(store).tasks@ == spec_apply_chain(old(store).steps@, old(store).tasks@, *cand).1,
        final(notifier).queue() == old(notifier).queue() + spec_chain_notes_one(*cand),
        match adv {
            Some(a) => cand.mr_status == Some(GlMergeRequestState::Merged) && cand.step_number
                < cand.steps_count && a.task_id == cand.task_id && a.prior_step_id == cand.id
                && (exists|k: int|
                0 <= k < old(store).steps@.len() && (#[trigger] old(store).steps@[k]).task_id
                    == cand.task_id && old(store).steps@[k].step_number == cand.step_number + 1
                    && old(store).steps@[k].watch_mr_id is None && a.next_step_id == old(
                    store,
                ).steps@[k].id && a.source_branch@ == old(store).steps@[k].source_branch@
                    && a.target_branch@ == old(store).steps@[k].target_branch@),
            None => !(cand.mr_status == Some(GlMergeRequestState::Merged) && cand.step_number
                < cand.steps_count && exists|k: int|
                0 <= k < old(store).steps@.len() && (#[trigger] old(store).steps@[k]).task_id
                    == cand.task_id && old(store).steps@[k].step_number == cand.step_number + 1
                    && old(store).steps@[k].watch_mr_id is None),
        },
        final(store).piplines == old(store).piplines,
        final(store).mrs == old(store).mrs,
        final(store).next_pipline_id == old(store).next_pipline_id,
        final(store).next_mr_id == old(store).next_mr_id,
        final(store).next_task_id == old(store).next_task_id,
        final(store).next_step_id == old(store).next_step_id,
{
    let closed = match &cand.mr_status {
        Some(GlMergeRequestState::Closed) => true,
        _ => false,
    };
    let merged = match &cand.mr_status {
        Some(GlMergeRequestState::Merged) => true,
        _ => false,
    };
    if closed {
        let action: Vec<(String, String)> = match &cand.mr_web_url {
            Some(u) => {
                let mut v: Vec<(String, String)> = Vec::new();
                v.push((u.clone(), String::from_str("Открыть MR")));
                v
            },
            None => Vec::new(),
        };
        proof {
            assert(action.deep_view() =~= spec_chain_notes_one(*cand)[0].action);
        }
        notifier.notify(
            cand.get_title(),
            Some(String::from_str("Ошибка ChainMR: Текущий MR закрылся")),
            action,
        );
        store.fail_task_steps(cand.task_id, cand.id);
        let found = store.update_task_status(cand.task_id, ChainmrStatus::Failed);
        proof {
            assert(store.steps@ =~= spec_chain_fail_steps(
                old(store).steps@,
                cand.task_id,
                cand.id,
            ));
            if found {
                let i = choose|i: int|
                    0 <= i < old(store).tasks@.len() && #[trigger] old(store).tasks@[i].id
                        == cand.task_id && store.tasks@ == old(store).tasks@.update(
                        i,
                        ChainmrTask { status: ChainmrStatus::Failed, ..old(store).tasks@[i] },
                    );
                let c = spec_task_idx(old(store).tasks@, cand.task_id);
                assert(0 <= c < old(store).tasks@.len() && old(store).tasks@[c].id
                    == cand.task_id);
                assert(c == i);
            } else {
                assert(!spec_has_task(old(store).tasks@, cand.task_id));
            }
            assert(notifier.queue() =~= old(notifier).queue() + spec_chain_notes_one(
                *cand,
            ));
        }
        return None;
    }
    if merged {
        if cand.step_number == cand.steps_count {
            let pending_task: Option<usize> = match store.find_task(cand.task_id) {
                Some(ti) => {
                    let is_pending = match store.tasks[ti].status {
                        ChainmrStatus::Pending => true,
                        _ => false,
                    };
                    if is_pending {
                        Some(ti)
                    } else {
                        proof {
                            assert(old(store).tasks@[ti as int].id == cand.task_id);
                            let c = spec_task_idx(old(store).tasks@, cand.task_id);
                            assert(0 <= c < old(store).tasks@.len() && old(store).tasks@[c].id
                                == cand.task_id);
                            assert(c == ti as int);
                        }
                        None
                    }
                },
                None => {
                    proof {
                        assert(!spec_has_task(old(store).tasks@, cand.task_id));
                    }
                    None
                },
            };
            if pending_task.is_none() {
                proof {
                    assert(notifier.queue() =~= old(notifier).queue() + spec_chain_notes_one(
                        *cand,
                    ));
                }
                return None;
            }
            let sfound = store.update_step_status(cand.id, ChainmrStatus::Success);
            proof {
                if sfound {
                    let i = choose|i: int|
                        0 <= i < old(store).steps@.len() && #[trigger] old(store).steps@[i].id
                            == cand.id && store.steps@ == old(store).steps@.update(
                            i,
                            ChainmrStep {
                                status: ChainmrStatus::Success,
                                ..old(store).steps@[i]
                            },
                        );
                    let c = spec_step_idx(old(store).steps@, cand.id);
                    assert(0 <= c < old(store).steps@.len() && old(store).steps@[c].id
                        == cand.id);
                    assert(c == i);
                } else {
                    assert(!spec_has_step(old(store).steps@, cand.id));
                }
            }
            let ghost mid_tasks = store.tasks@;
            match store.find_task(cand.task_id) {
                Some(ti) => {
                    let status = if store.tasks[ti].watch_pipline_after_complete {
                        ChainmrStatus::WaitPipeline
                    } else {
                        ChainmrStatus::Success
                    };
                    let tfound = store.update_task_status(cand.task_id, status);
                    proof {
                        let i = choose|i: int|
                            0 <= i < mid_tasks.len() && #[trigger] mid_tasks[i].id
                                == cand.task_id && store.tasks@ == mid_tasks.update(
                                i,
                                ChainmrTask { status, ..mid_tasks[i] },
                            );
                        let c = spec_task_idx(old(store).tasks@, cand.task_id);
                        assert(0 <= c < old(store).tasks@.len() && old(store).tasks@[c].id
                            == cand.task_id);
                        assert(c == i);
                        assert(ti as int == i);
                        assert(store.tasks@ =~= spec_task_complete(
                            old(store).tasks@,
                            cand.task_id,
                        ));
                    }
                },
                None => {
                    proof {
                        assert(!spec_has_task(old(store).tasks@, cand.task_id));
                    }
                },
            }
            proof {
                assert(notifier.queue() =~= old(notifier).queue()
                    + spec_chain_notes_one(*cand));
            }
            return None;
        } else if cand.step_number < cand.steps_count {
            let next_number = cand.step_number + 1;
            let ghost snap = *store;
            let ghost qsnap = notifier.queue();
            proof {
                assert(snap == *old(store));
                assert(qsnap == old(notifier).queue());
            }
            let mut k: usize = 0;
            while k < store.steps.len()
                invariant
                    *store == snap,
                    snap == *old(store),
                    old(store).wf(),
                    notifier.queue() == qsnap,
                    qsnap == old(notifier).queue(),
                    0 <= k <= store.steps@.len(),
                    next_number == cand.step_number + 1,
                    cand.mr_status == Some(GlMergeRequestState::Merged),
                    cand.step_number < cand.steps_count,
                    forall|j: int|
                        0 <= j < k ==> !((#[trigger] store.steps@[j]).task_id == cand.task_id
                            && store.steps@[j].step_number == next_number
                            && store.steps@[j].watch_mr_id is None),
                decreases store.steps@.len() - k,
            {
                let s = &store.steps[k];
                let unlinked = match s.watch_mr_id {
                    None => true,
                    Some(_) => false,
                };
                if s.task_id == cand.task_id && s.step_number == next_number && unlinked {
                    let adv = ChainAdvance {
                        task_id: cand.task_id,
                        prior_step_id: cand.id,
                        next_step_id: s.id,
                        source_branch: s.source_branch.clone(),
                        target_branch: s.target_branch.clone(),
                    };
                    proof {
                        assert((old(store).steps@[k as int]).task_id == cand.task_id
                            && old(store).steps@[k as int].step_number == cand.step_number + 1
                            && old(store).steps@[k as int].watch_mr_id is None);
                        assert(notifier.queue() =~= old(notifier).queue()
                            + spec_chain_notes_one(*cand));
                    }
                    return Some(adv);
                }
                k += 1;
            }
            proof {
                assert(notifier.queue() =~= old(notifier).queue() + spec_chain_notes_one(
                    *cand,
                ));
            }
            return None;
        } else {
            proof {
                assert(notifier.queue() =~= old(notifier).queue() + spec_chain_notes_one(
                    *cand,
                ));
            }
            return None;
        }
    }
    proof {
        assert(notifier.queue() =~= old(notifier).queue() + spec_chain_notes_one(*cand));
    }
    None
}

/// The chain state machine's outcomes for a pending task, seen through
/// one of its candidate steps: the task fails exactly when the step's
/// merge request closed unmerged; it completes, as `Success` or as
/// `WaitPipeline` by its own flag, exactly when the final step's merge
/// request merged; in every other case it stays as it was.
pub proof fn lemma_chain_task_outcome(
    steps: Seq<ChainmrStep>,
    tasks: Seq<ChainmrTask>,
    cand: ChainmrStepResult,
)
    requires
        forall|i: int, j: int|
            0 <= i < j < tasks.len() ==> #[trigger] tasks[i].id != #[trigger] tasks[j].id,
        spec_has_task(tasks, cand.task_id),
        tasks[spec_task_idx(tasks, cand.task_id)].status is Pending,
    ensures
        ({
            let t2 = spec_apply_chain(steps, tasks, cand).1;
            let i = spec_task_idx(tasks, cand.task_id);
            &&& (t2[i].status is Failed <==> cand.mr_status == Some(GlMergeRequestState::Closed))
            &&& ((t2[i].status is Success || t2[i].status is WaitPipeline) <==> (cand.mr_status
                == Some(GlMergeRequestState::Merged) && cand.step_number == cand.steps_count))
            &&& (t2[i].status is WaitPipeline ==> tasks[i].watch_pipline_after_complete)
            &&& (t2[i].status is Success && cand.mr_status == Some(GlMergeRequestState::Merged)
                ==> !tasks[i].watch_pipline_after_complete)
            &&& (!(cand.mr_status == Some(GlMergeRequestState::Closed)) && !(cand.mr_status
                == Some(GlMergeRequestState::Merged) && cand.step_number == cand.steps_count)
                ==> t2 == tasks)
        }),
{
    let i = spec_task_idx(tasks, cand.task_id);
    assert(0 <= i < tasks.len() && tasks[i].id == cand.task_id);
}

/// The step and task rows after a whole chain pass over `cands`.
pub open spec fn spec_run_chain(
    steps: Seq<ChainmrStep>,
    tasks: Seq<ChainmrTask>,
    cands: Seq<ChainmrStepResult>,
) -> (Seq<ChainmrStep>, Seq<ChainmrTask>)
    decreases cands.len(),
{
    if cands.len() == 0 {
        (steps, tasks)
    } else {
        let prev = spec_run_chain(steps, tasks, cands.drop_last());
        spec_apply_chain(prev.0, prev.1, cands.last())
    }
}

/// The notifications a whole chain pass raises, in order.
pub open spec fn spec_run_chain_notes(cands: Seq<ChainmrStepResult>) -> Seq<NotificationV>
    decreases cands.len(),
{
    if cands.len() == 0 {
        Seq::empty()
    } else {
        spec_run_chain_notes(cands.drop_last()) + spec_chain_notes_one(cands.last())
    }
}

/// Every advance request stems from a candidate step whose merge request
/// merged before the final step.
pub open spec fn spec_advances_sound(
    advances: Seq<ChainAdvance>,
    cands: Seq<ChainmrStepResult>,
) -> bool {
    forall|k: int|
        0 <= k < advances.len() ==> exists|c: int|
            0 <= c < cands.len() && (#[trigger] advances[k]).prior_step_id == (
            #[trigger] cands[c]).id && advances[k].task_id == cands[c].task_id
                && cands[c].mr_status == Some(GlMergeRequestState::Merged)
                && cands[c].step_number < cands[c].steps_count
}

/// Each of the first `upto` candidates whose merge request merged before
/// the final step, with the following step present and not yet
/// materialized, yields an advance request.
pub open spec fn spec_advances_complete_upto(
    advances: Seq<ChainAdvance>,
    cands: Seq<ChainmrStepResult>,
    steps: Seq<ChainmrStep>,
    upto: int,
) -> bool {
    forall|c: int|
        0 <= c < upto && (#[trigger] cands[c]).mr_status == Some(GlMergeRequestState::Merged)
            && cands[c].step_number < cands[c].steps_count && (exists|k: int|
            0 <= k < steps.len() && (#[trigger] steps[k]).task_id == cands[c].task_id
                && steps[k].step_number == cands[c].step_number + 1
                && steps[k].watch_mr_id is None) ==> exists|a: int|
            0 <= a < advances.len() && (#[trigger] advances[a]).prior_step_id == cands[c].id
}

/// A chain pass never moves, renames, renumbers or relinks a step: only
/// statuses change.
pub proof fn lemma_run_chain_keeps_step_shape(
    steps: Seq<ChainmrStep>,
    tasks: Seq<ChainmrTask>,
    cands: Seq<ChainmrStepResult>,
)
    ensures
        spec_run_chain(steps, tasks, cands).0.len() == steps.len(),
        forall|k: int|
            0 <= k < steps.len() ==> ({
                let s2 = #[trigger] spec_run_chain(steps, tasks, cands).0[k];
                s2.id == steps[k].id && s2.task_id == steps[k].task_id && s2.step_number
                    == steps[k].step_number && s2.watch_mr_id == steps[k].watch_mr_id
            }),
    decreases cands.len(),
{
    if cands.len() > 0 {
        lemma_run_chain_keeps_step_shape(steps, tasks, cands.drop_last());
        let prev = spec_run_chain(steps, tasks, cands.drop_last());
        let cand = cands.last();
        match cand.mr_status {
            Some(GlMergeRequestState::Closed) => {},
            Some(GlMergeRequestState::Merged) => {
                if cand.step_number == cand.steps_count {
                    if spec_has_step(prev.0, cand.id) {
                        let i = spec_step_idx(prev.0, cand.id);
                        assert(0 <= i < prev.0.len() && prev.0[i].id == cand.id);
                    }
                }
            },
            _ => {},
        }
    }
}

/// One chain-orchestrator pass over the candidate steps, left to right.
/// Every returned advance request stems from a candidate whose merge
/// request merged before the final step, and every candidate that merged
/// before the final step with a following, not yet materialized step
/// yields one.
#[verifier::rlimit(30)]
pub fn watch_chainmr(
    store: &mut Store,
    cands: &Vec<ChainmrStepResult>,
    notifier: &mut Notifier,
) -> (advances: Vec<ChainAdvance>)
    requires
        old(store).wf(),
    ensures
        final(store).wf(),
        final(store).steps@ == spec_run_chain(old(store).steps@, old(store).tasks@, cands@).0,
        final(store).tasks@ == spec_run_chain(old(store).steps@, old(store).tasks@, cands@).1,
        final(notifier).queue() == old(notifier).queue() + spec_run_chain_notes(cands@),
        spec_advances_sound(advances@, cands@),
        spec_advances_complete_upto(advances@, cands@, old(store).steps@, cands@.len() as int),
        final(store).piplines == old(store).piplines,
        final(store).mrs == old(store).mrs,
        final(store).next_pipline_id == old(store).next_pipline_id,
        final(store).next_mr_id == old(store).next_mr_id,
        final(store).next_task_id == old(store).next_task_id,
        final(store).next_step_id == old(store).next_step_id,
{
    let mut advances: Vec<ChainAdvance> = Vec::new();
    let mut i: usize = 0;
    proof {
        assert(store.steps@ =~= spec_run_chain(
            old(store).steps@,
            old(store).tasks@,
            cands@.take(0),
        ).0);
        assert(store.tasks@ =~= spec_run_chain(
            old(store).steps@,
            old(store).tasks@,
            cands@.take(0),
        ).1);
        assert(notifier.queue() =~= old(notifier).queue() + spec_run_chain_notes(
            cands@.take(0),
        ));
    }
    while i < cands.len()
        invariant
            old(store).wf(),
            store.wf(),
            0 <= i <= cands@.len(),
            store.steps@ == spec_run_chain(
                old(store).steps@,
                old(store).tasks@,
                cands@.take(i as int),
            ).0,
            store.tasks@ == spec_run_chain(
                old(store).steps@,
                old(store).tasks@,
                cands@.take(i as int),
            ).1,
            notifier.queue() == old(notifier).queue() + spec_run_chain_notes(
                cands@.take(i as int),
            ),
            spec_advances_sound(advances@, cands@),
            spec_advances_complete_upto(advances@, cands@, old(store).steps@, i as int),
            store.piplines == old(store).piplines,
            store.mrs == old(store).mrs,
            store.next_pipline_id == old(store).next_pipline_id,
            store.next_mr_id == old(store).next_mr_id,
            store.next_task_id == old(store).next_task_id,
            store.next_step_id == old(store).next_step_id,
        decreases cands@.len() - i,
    {
        let ghost pre_steps = store.steps@;
        let ghost pre_advances = advances@;
        let adv = chainmr_step_row(store, &cands[i], notifier);
        match adv {
            Some(a) => {
                proof {
                    assert(cands@[i as int].mr_status == Some(GlMergeRequestState::Merged));
                }
                advances.push(a);
                proof {
                    assert(advances@ == pre_advances.push(advances@.last()));
                    assert forall|c: int|
                        0 <= c < i + 1 && (#[trigger] cands@[c]).mr_status == Some(
                            GlMergeRequestState::Merged,
                        ) && cands@[c].step_number < cands@[c].steps_count && (exists|k: int|
                            0 <= k < old(store).steps@.len() && (#[trigger] old(
                                store,
                            ).steps@[k]).task_id == cands@[c].task_id && old(
                                store,
                            ).steps@[k].step_number == cands@[c].step_number + 1 && old(
                                store,
                            ).steps@[k].watch_mr_id is None)
                        implies exists|x: int|
                            0 <= x < advances@.len() && (#[trigger] advances@[x]).prior_step_id
                                == cands@[c].id by {
                        if c == i {
                            assert(advances@[advances@.len() - 1].prior_step_id == cands@[c].id);
                        } else {
                            assert(spec_advances_complete_upto(
                                pre_advances,
                                cands@,
                                old(store).steps@,
                                i as int,
                            ));
                            let x = choose|x: int|
                                0 <= x < pre_advances.len() && (
                                #[trigger] pre_advances[x]).prior_step_id == cands@[c].id;
                            assert(advances@[x] == pre_advances[x]);
                        }
                    }
                    assert(spec_advances_complete_upto(
                        advances@,
                        cands@,
                        old(store).steps@,
                        i + 1,
                    ));
                    assert forall|k: int| 0 <= k < advances@.len() implies exists|c: int|
                        0 <= c < cands@.len() && (#[trigger] advances@[k]).prior_step_id == (
                        #[trigger] cands@[c]).id && advances@[k].task_id == cands@[c].task_id
                            && cands@[c].mr_status == Some(GlMergeRequestState::Merged)
                            && cands@[c].step_number < cands@[c].steps_count by {
                        if k < pre_advances.len() {
                            assert(spec_advances_sound(pre_advances, cands@));
                            assert(advances@[k] == pre_advances[k]);
                        } else {
                            assert(advances@[k].prior_step_id == cands@[i as int].id
                                && advances@[k].task_id == cands@[i as int].task_id);
                        }
                    }
                    assert(spec_advances_sound(advances@, cands@));
                }
            },
            None => {
                proof {
                    let cand = cands@[i as int];
                    if cand.mr_status == Some(GlMergeRequestState::Merged) && cand.step_number
                        < cand.steps_count && (exists|k: int|
                        0 <= k < old(store).steps@.len() && (#[trigger] old(
                            store,
                        ).steps@[k]).task_id == cand.task_id && old(store).steps@[k].step_number
                            == cand.step_number + 1 && old(store).steps@[k].watch_mr_id
                        is None) {
                        let k = choose|k: int|
                            0 <= k < old(store).steps@.len() && (#[trigger] old(
                                store,
                            ).steps@[k]).task_id == cand.task_id && old(
                                store,
                            ).steps@[k].step_number == cand.step_number + 1 && old(
                                store,
                            ).steps@[k].watch_mr_id is None;
                        lemma_run_chain_keeps_step_shape(
                            old(store).steps@,
                            old(store).tasks@,
                            cands@.take(i as int),
                        );
                        assert(pre_steps[k].task_id == cand.task_id && pre_steps[k].step_number
                            == cand.step_number + 1 && pre_steps[k].watch_mr_id is None);
                        assert(false);
                    }
                }
            },
        }
        proof {
            let t = cands@.take(i + 1);
            assert(t.drop_last() =~= cands@.take(i as int));
            assert(t.last() == cands@[i as int]);
            assert(store.steps@ == spec_run_chain(old(store).steps@, old(store).tasks@, t).0);
            assert(store.tasks@ == spec_run_chain(old(store).steps@, old(store).tasks@, t).1);
            assert(notifier.queue() =~= old(notifier).queue() + spec_run_chain_notes(t));
        }
        i += 1;
    }
    proof {
        assert(cands@.take(cands@.len() as int) =~= cands@);
    }
    advances
}

/// Applies the outcome of materializing the next step's merge request: on
/// success the new merge request is registered for watching under
/// auto-merge, the next step is linked to it, and the prior step turns
/// `Success`, all in one write; on failure nothing changes and the advance
/// is retried next cycle.
pub fn apply_next_step_mr(
    store: &mut Store,
    adv: &ChainAdvance,
    project_id: i32,
    created: &Result<GlMergeRequest, String>,
) -> (registered: Option<i32>)
    requires
        old(store).wf(),
        old(store).next_mr_id < i32::MAX,
        created matches Ok(m) ==> m.iid <= i32::MAX,
    ensures
        final(store).wf(),
        created matches Err(_) ==> *final(store) == *old(store) && registered is None,
        created matches Ok(m) ==> ({
            let row = final(store).mrs@.last();
            &&& registered == Some(old(store).next_mr_id)
            &&& final(store).mrs@ == old(store).mrs@.push(row)
            &&& row.id == old(store).next_mr_id
            &&& row.mr_id == m.iid as i32
            &&& row.project_id == project_id
            &&& row.web_url@ == m.web_url@
            &&& row.status == m.state
            &&& row.has_conflicts == m.has_conflicts
            &&& row.notify_on_end == false
            &&& row.merge_commit_sha is None
            &&& row.auto_merge == true
            &&& row.watch_pipline_after_merge == false
            &&& final(store).steps@.len() == old(store).steps@.len()
            &&& forall|k: int|
                0 <= k < old(store).steps@.len() ==> final(store).steps@[k] == ({
                    let s1 = if (#[trigger] old(store).steps@[k]).id == adv.prior_step_id {
                        ChainmrStep { status: ChainmrStatus::Success, ..old(store).steps@[k] }
                    } else {
                        old(store).steps@[k]
                    };
                    if old(store).steps@[k].id == adv.next_step_id {
                        ChainmrStep { watch_mr_id: Some(old(store).next_mr_id), ..s1 }
                    } else {
                        s1
                    }
                })
        }),
        final(store).piplines == old(store).piplines,
        final(store).tasks == old(store).tasks,
        final(store).next_pipline_id == old(store).next_pipline_id,
        final(store).next_task_id == old(store).next_task_id,
        final(store).next_step_id == old(store).next_step_id,
{
    match created {
        Err(_) => None,
        Ok(m) => {
            let new_id = store.insert_mr(
                m.iid as i32,
                project_id,
                m.web_url.clone(),
                m.state,
                m.has_conflicts,
                false,
                None,
                true,
                false,
            );
            let ghost mid1 = store.steps@;
            let pfound = store.update_step_status(adv.prior_step_id, ChainmrStatus::Success);
            let ghost mid2 = store.steps@;
            let lfound = store.set_step_watch_mr(adv.next_step_id, new_id);
            proof {
                if pfound {
                    let i = choose|i: int|
                        0 <= i < mid1.len() && #[trigger] mid1[i].id == adv.prior_step_id
                            && mid2 == mid1.update(
                            i,
                            ChainmrStep { status: ChainmrStatus::Success, ..mid1[i] },
                        );
                    assert(mid1[i].id == adv.prior_step_id);
                }
                if lfound {
                    let j = choose|j: int|
                        0 <= j < mid2.len() && #[trigger] mid2[j].id == adv.next_step_id
                            && store.steps@ == mid2.update(
                            j,
                            ChainmrStep { watch_mr_id: Some(new_id), ..mid2[j] },
                        );
                    assert(mid2[j].id == adv.next_step_id);
                }
                assert forall|k: int| 0 <= k < old(store).steps@.len() implies store.steps@[k]
                    == ({
                    let s1 = if (old(store).steps@[k]).id == adv.prior_step_id {
                        ChainmrStep { status: ChainmrStatus::Success, ..old(store).steps@[k] }
                    } else {
                        old(store).steps@[k]
                    };
                    if old(store).steps@[k].id == adv.next_step_id {
                        ChainmrStep { watch_mr_id: Some(new_id), ..s1 }
                    } else {
                        s1
                    }
                }) by {
                    assert(mid1[k] == old(store).steps@[k]);
                    if !pfound {
                        assert(!(exists|i: int|
                            0 <= i < mid1.len() && #[trigger] mid1[i].id == adv.prior_step_id));
                    }
                    if !lfound {
                        assert(!(exists|j: int|
                            0 <= j < mid2.len() && #[trigger] mid2[j].id == adv.next_step_id));
                    }
                }
            }
            Some(new_id)
        },
    }
}

} // verus!
