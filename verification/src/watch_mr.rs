//! The merge-request watcher: reconciles each opened watched merge request
//! against the fetched remote state, persists it, gates on conflicts and
//! the head pipeline, and decides whether an auto-merge is attempted. The
//! remote fetch and the merge call happen outside the library: a pass
//! receives candidates paired with fetch results and hands back which rows
//! to merge; the merge outcome is then applied through
//! [`apply_merge_result`].

use vstd::prelude::*;
use crate::gitlab::{GlMergeRequest, GlPipeline};
use crate::models::WatchMr;
use crate::notify::{Notifier, NotificationV};
use crate::status::{spec_is_cancelled, spec_is_success, GlMergeRequestState};
use crate::store::Store;
use crate::strutil::{spec_dec_digits, spec_dec_int, i32_to_string, u64_to_string};

verus! {

/// The chain task a watched merge request belongs to, for title context.
#[derive(Debug)]
pub struct WatchMRChainMrTask {
    pub id: i32,
    pub source_branch: String,
    pub target_branch: String,
}

/// The fields of a watched merge request that one reconciliation reads.
#[derive(Debug)]
pub struct WatchMRResult {
    pub id: i32,
    pub mr_id: i32,
    pub project_id: i32,
    pub has_conflicts: bool,
    pub notify_on_end: bool,
    pub auto_merge: bool,
    pub watch_pipeline_after_merge: bool,
    pub chainmr_task: Option<WatchMRChainMrTask>,
}

/// The notification title for a watched merge request: the chain context
/// when the row belongs to a chain, the bare merge-request number
/// otherwise.
pub open spec fn spec_mr_title(r: WatchMRResult) -> Seq<char> {
    match r.chainmr_task {
        None => "MR !"@ + spec_dec_int(r.mr_id as int),
        Some(task) => "#"@ + spec_dec_int(task.id as int) + ": "@ + task.source_branch@ + " -> "@
            + task.target_branch@,
    }
}

impl WatchMRResult {
    /// The title under which notifications for this row are raised.
    pub fn get_title(&self) -> (r: String)
        ensures
            r@ == spec_mr_title(*self),
    {
        match &self.chainmr_task {
            None => {
                let mut r = String::from_str("MR !");
                let digits = i32_to_string(self.mr_id);
                r.append(digits.as_str());
                r
            },
            Some(task) => {
                let mut r = String::from_str("#");
                let digits = i32_to_string(task.id);
                r.append(digits.as_str());
                r.append(": ");
                r.append(task.source_branch.as_str());
                r.append(" -> ");
                r.append(task.target_branch.as_str());
                r
            },
        }
    }
}

/// The `opened` rows, in storage order: only they are polled.
pub open spec fn spec_opened_mrs(rows: Seq<WatchMr>) -> Seq<WatchMr>
    decreases rows.len(),
{
    if rows.len() == 0 {
        Seq::empty()
    } else {
        let rest = spec_opened_mrs(rows.drop_last());
        if rows.last().status is Opened {
            rest.push(rows.last())
        } else {
            rest
        }
    }
}

/// Some step links the watched merge request `mr_local_id` to an existing
/// task.
pub open spec fn spec_linked(
    steps: Seq<crate::models::ChainmrStep>,
    tasks: Seq<crate::models::ChainmrTask>,
    mr_local_id: i32,
) -> bool {
    exists|i: int, j: int|
        0 <= i < steps.len() && 0 <= j < tasks.len() && #[trigger] steps[i].watch_mr_id == Some(
            mr_local_id,
        ) && #[trigger] tasks[j].id == steps[i].task_id
}

/// The snapshot's chain link is faithful: present, and carrying the
/// linked task's fields, exactly when a step links the row to a task.
pub open spec fn spec_link_matches(
    link: Option<WatchMRChainMrTask>,
    steps: Seq<crate::models::ChainmrStep>,
    tasks: Seq<crate::models::ChainmrTask>,
    mr_local_id: i32,
) -> bool {
    match link {
        None => !spec_linked(steps, tasks, mr_local_id),
        Some(t) => exists|i: int, j: int|
            0 <= i < steps.len() && 0 <= j < tasks.len() && #[trigger] steps[i].watch_mr_id
                == Some(mr_local_id) && #[trigger] tasks[j].id == steps[i].task_id && t.id
                == tasks[j].id && t.source_branch@ == tasks[j].source_branch@ && t.target_branch@
                == tasks[j].target_branch@,
    }
}

/// The snapshot is faithful to the row it was read from.
pub open spec fn spec_mr_result_matches(
    res: WatchMRResult,
    row: WatchMr,
    steps: Seq<crate::models::ChainmrStep>,
    tasks: Seq<crate::models::ChainmrTask>,
) -> bool {
    &&& res.id == row.id
    &&& res.mr_id == row.mr_id
    &&& res.project_id == row.project_id
    &&& res.has_conflicts == row.has_conflicts
    &&& res.notify_on_end == row.notify_on_end
    &&& res.auto_merge == row.auto_merge
    &&& res.watch_pipeline_after_merge == row.watch_pipline_after_merge
    &&& spec_link_matches(res.chainmr_task, steps, tasks, row.id)
}

/// Looks up the chain task a watched merge request belongs to, through the
/// step that references it.
fn find_chain_link(store: &Store, mr_local_id: i32) -> (link: Option<WatchMRChainMrTask>)
    ensures
        spec_link_matches(link, store.steps@, store.tasks@, mr_local_id),
{
    let mut i: usize = 0;
    while i < store.steps.len()
        invariant
            0 <= i <= store.steps@.len(),
            forall|k: int, j: int|
                0 <= k < i && 0 <= j < store.tasks@.len() ==> !(#[trigger] store.steps@[k].watch_mr_id
                    == Some(mr_local_id) && #[trigger] store.tasks@[j].id
                    == store.steps@[k].task_id),
        decreases store.steps@.len() - i,
    {
        let step = &store.steps[i];
        let links_here = match step.watch_mr_id {
            Some(x) => x == mr_local_id,
            None => false,
        };
        if links_here {
            match store.find_task(step.task_id) {
                Some(ti) => {
                    let task = &store.tasks[ti];
                    let link = WatchMRChainMrTask {
                        id: task.id,
                        source_branch: task.source_branch.clone(),
                        target_branch: task.target_branch.clone(),
                    };
                    proof {
                        assert(store.steps@[i as int].watch_mr_id == Some(mr_local_id)
                            && store.tasks@[ti as int].id == store.steps@[i as int].task_id);
                    }
                    return Some(link);
                },
                None => {},
            }
        }
        i += 1;
    }
    None
}

/// Snapshots the candidate rows of one reconciliation pass: every watched
/// merge request still `opened`, each with the chain task it belongs to,
/// when one does.
pub fn get_watch_mrs(store: &Store) -> (r: Vec<WatchMRResult>)
    ensures
        r@.len() == spec_opened_mrs(store.mrs@).len(),
        forall|k: int|
            0 <= k < r@.len() ==> spec_mr_result_matches(
                #[trigger] r@[k],
                spec_opened_mrs(store.mrs@)[k],
                store.steps@,
                store.tasks@,
            ),
{
    let mut r: Vec<WatchMRResult> = Vec::new();
    let mut i: usize = 0;
    proof {
        assert(spec_opened_mrs(store.mrs@.take(0)) =~= Seq::<WatchMr>::empty());
    }
    while i < store.mrs.len()
        invariant
            0 <= i <= store.mrs@.len(),
            r@.len() == spec_opened_mrs(store.mrs@.take(i as int)).len(),
            forall|k: int|
                0 <= k < r@.len() ==> spec_mr_result_matches(
                    #[trigger] r@[k],
                    spec_opened_mrs(store.mrs@.take(i as int))[k],
                    store.steps@,
                    store.tasks@,
                ),
        decreases store.mrs@.len() - i,
    {
        let row = &store.mrs[i];
        let opened = match row.status {
            GlMergeRequestState::Opened => true,
            _ => false,
        };
        if opened {
            let link = find_chain_link(store, row.id);
            r.push(
                WatchMRResult {
                    id: row.id,
                    mr_id: row.mr_id,
                    project_id: row.project_id,
                    has_conflicts: row.has_conflicts,
                    notify_on_end: row.notify_on_end,
                    auto_merge: row.auto_merge,
                    watch_pipeline_after_merge: row.watch_pipline_after_merge,
                    chainmr_task: link,
                },
            );
        }
        proof {
            let t = store.mrs@.take(i + 1);
            assert(t.drop_last() =~= store.mrs@.take(i as int));
            assert(t.last() == store.mrs@[i as int]);
        }
        i += 1;
    }
    proof {
        assert(store.mrs@.take(store.mrs@.len() as int) =~= store.mrs@);
    }
    r
}

/// Some merge-request row carries local id `id`.
pub open spec fn spec_has_mr(rows: Seq<WatchMr>, id: i32) -> bool {
    exists|i: int| 0 <= i < rows.len() && #[trigger] rows[i].id == id
}

/// The index of the merge-request row with local id `id`.
pub open spec fn spec_mr_idx(rows: Seq<WatchMr>, id: i32) -> int {
    choose|i: int| 0 <= i < rows.len() && #[trigger] rows[i].id == id
}

/// The rows after persisting one fetched state: status and conflict flag
/// overwritten; a failed fetch, or a vanished row, changes nothing.
pub open spec fn spec_apply_mr_fetch(
    rows: Seq<WatchMr>,
    cand: WatchMRResult,
    fetch: Result<GlMergeRequest, String>,
) -> Seq<WatchMr> {
    match fetch {
        Ok(mr) => {
            if spec_has_mr(rows, cand.id) {
                let i = spec_mr_idx(rows, cand.id);
                rows.update(
                    i,
                    WatchMr { status: mr.state, has_conflicts: mr.has_conflicts, ..rows[i] },
                )
            } else {
                rows
            }
        },
        Err(_) => rows,
    }
}

/// The head pipeline does not stand in the way of a merge: there is none,
/// or it succeeded.
pub open spec fn spec_head_pipeline_ok(head: Option<GlPipeline>) -> bool {
    match head {
        None => true,
        Some(p) => spec_is_success(p.status),
    }
}

/// An auto-merge is attempted if and only if the fetch succeeded, the
/// remote state is `opened`, there are no conflicts, no head pipeline
/// stands in the way, and the row asks for auto-merge.
pub open spec fn spec_merge_attempt(
    cand: WatchMRResult,
    fetch: Result<GlMergeRequest, String>,
) -> bool {
    match fetch {
        Ok(mr) => mr.state is Opened && !mr.has_conflicts && spec_head_pipeline_ok(
            mr.head_pipeline,
        ) && cand.auto_merge,
        Err(_) => false,
    }
}

/// The notification raised when conflicts newly appeared.
pub open spec fn spec_conflict_note(cand: WatchMRResult, mr: GlMergeRequest) -> NotificationV {
    NotificationV {
        summary: spec_mr_title(cand),
        body: Some("Обнаружен конфликт. Необходим ручной мердж"@),
        action: seq![(mr.web_url@, "Открыть MR"@)],
    }
}

/// The notification raised when the head pipeline failed.
pub open spec fn spec_head_failed_note(
    cand: WatchMRResult,
    mr: GlMergeRequest,
    p: GlPipeline,
) -> NotificationV {
    NotificationV {
        summary: spec_mr_title(cand),
        body: Some("Упал пайплайн!"@),
        action: seq![(mr.web_url@, "Открыть MR"@), (p.web_url@, "Открыть пайплайн"@)],
    }
}

/// The notification raised when the merge request was closed.
pub open spec fn spec_closed_note(cand: WatchMRResult, mr: GlMergeRequest) -> NotificationV {
    NotificationV {
        summary: spec_mr_title(cand),
        body: Some("MR закрыт!"@),
        action: seq![(mr.web_url@, "Открыть MR"@)],
    }
}

/// The notification raised when the merge request is ready but a human
/// must merge it.
pub open spec fn spec_ready_note(cand: WatchMRResult, mr: GlMergeRequest) -> NotificationV {
    NotificationV {
        summary: spec_mr_title(cand),
        body: Some("MR "@ + spec_dec_digits(mr.id as nat) + " готов к мерджу!"@),
        action: seq![(mr.web_url@, "Открыть MR"@)],
    }
}

/// The notifications one candidate's reconciliation raises, following the
/// decision sequence: newly appeared conflicts, then the head pipeline,
/// then standing conflicts, then the closed state, then the manual-merge
/// hint. At most one is raised; a fetch failure and every waiting state
/// raise none.
pub open spec fn spec_mr_notes_one(
    cand: WatchMRResult,
    fetch: Result<GlMergeRequest, String>,
) -> Seq<NotificationV> {
    match fetch {
        Ok(mr) => {
            if mr.has_conflicts && !cand.has_conflicts {
                seq![spec_conflict_note(cand, mr)]
            } else {
                match mr.head_pipeline {
                    Some(p) => {
                        if spec_is_cancelled(p.status) {
                            seq![spec_head_failed_note(cand, mr, p)]
                        } else if !spec_is_success(p.status) {
                            Seq::empty()
                        } else {
                            spec_mr_notes_tail(cand, mr)
                        }
                    },
                    None => spec_mr_notes_tail(cand, mr),
                }
            }
        },
        Err(_) => Seq::empty(),
    }
}

/// The notifications of the decision sequence's tail, after the conflict
/// and head-pipeline gates let the row through.
pub open spec fn spec_mr_notes_tail(cand: WatchMRResult, mr: GlMergeRequest) -> Seq<
    NotificationV,
> {
    if mr.has_conflicts {
        Seq::empty()
    } else if mr.state is Closed {
        if cand.notify_on_end {
            seq![spec_closed_note(cand, mr)]
        } else {
            Seq::empty()
        }
    } else if !(mr.state is Opened) {
        Seq::empty()
    } else if !cand.auto_merge {
        seq![spec_ready_note(cand, mr)]
    } else {
        Seq::empty()
    }
}

/// A single clickable action.
fn one_action(url: String, label: &str) -> (v: Vec<(String, String)>)
    ensures
        v.deep_view() == seq![(url@, label@)],
{
    let ghost u = url@;
    let mut v: Vec<(String, String)> = Vec::new();
    v.push((url, String::from_str(label)));
    proof {
        assert(v.deep_view() =~= seq![(u, label@)]);
    }
    v
}

/// Two clickable actions.
fn two_actions(url1: String, label1: &str, url2: String, label2: &str) -> (v: Vec<(String, String)>)
    ensures
        v.deep_view() == seq![(url1@, label1@), (url2@, label2@)],
{
    let ghost u1 = url1@;
    let ghost u2 = url2@;
    let mut v: Vec<(String, String)> = Vec::new();
    v.push((url1, String::from_str(label1)));
    v.push((url2, String::from_str(label2)));
    proof {
        assert(v.deep_view() =~= seq![(u1, label1@), (u2, label2@)]);
    }
    v
}

/// Reconciles one opened watched merge request against its fetch result:
/// persists the fresh state, raises at most one notification, and reports
/// whether an auto-merge is to be attempted.
pub fn watch_mr_row(
    store: &mut Store,
    cand: &WatchMRResult,
    fetch: &Result<GlMergeRequest, String>,
    notifier: &mut Notifier,
) -> (attempt: bool)
    requires
        old(store).wf(),
    ensures
        final(store).wf(),
        final(store).mrs@ == spec_apply_mr_fetch(old(store).mrs@, *cand, *fetch),
        final(notifier).queue() == old(notifier).queue() + spec_mr_notes_one(*cand, *fetch),
        attempt == spec_merge_attempt(*cand, *fetch),
        final(store).piplines == old(store).piplines,
        final(store).tasks == old(store).tasks,
        final(store).steps == old(store).steps,
        final(store).next_pipline_id == old(store).next_pipline_id,
        final(store).next_mr_id == old(store).next_mr_id,
        final(store).next_task_id == old(store).next_task_id,
        final(store).next_step_id == old(store).next_step_id,
{
    match fetch {
        Err(_) => {
            proof {
                assert(final(notifier).queue() =~= old(notifier).queue() + spec_mr_notes_one(
                    *cand,
                    *fetch,
                ));
            }
            false
        },
        Ok(mr) => {
            let found = store.update_mr_state(cand.id, mr.state, mr.has_conflicts);
            proof {
                if found {
                    let i = choose|i: int|
                        0 <= i < old(store).mrs@.len() && #[trigger] old(store).mrs@[i].id
                            == cand.id && store.mrs@ == old(store).mrs@.update(
                            i,
                            WatchMr {
                                status: mr.state,
                                has_conflicts: mr.has_conflicts,
                                ..old(store).mrs@[i]
                            },
                        );
                    let c = spec_mr_idx(old(store).mrs@, cand.id);
                    assert(0 <= c < old(store).mrs@.len() && old(store).mrs@[c].id == cand.id);
                    assert(c == i);
                } else {
                    assert(!spec_has_mr(old(store).mrs@, cand.id));
                }
            }
            if mr.has_conflicts && !cand.has_conflicts {
                let action = one_action(mr.web_url.clone(), "Открыть MR");
                notifier.notify(
                    cand.get_title(),
                    Some(String::from_str("Обнаружен конфликт. Необходим ручной мердж")),
                    action,
                );
                proof {
                    assert(final(notifier).queue() =~= old(notifier).queue() + spec_mr_notes_one(
                        *cand,
                        *fetch,
                    ));
                }
                return false;
            }
            match &mr.head_pipeline {
                Some(pipeline) => {
                    if pipeline.status.is_cancelled() {
                        let action = two_actions(
                            mr.web_url.clone(),
                            "Открыть MR",
                            pipeline.web_url.clone(),
                            "Открыть пайплайн",
                        );
                        notifier.notify(
                            cand.get_title(),
                            Some(String::from_str("Упал пайплайн!")),
                            action,
                        );
                        proof {
                            assert(final(notifier).queue() =~= old(notifier).queue()
                                + spec_mr_notes_one(*cand, *fetch));
                        }
                        return false;
                    }
                    if !pipeline.status.is_success() {
                        proof {
                            assert(final(notifier).queue() =~= old(notifier).queue()
                                + spec_mr_notes_one(*cand, *fetch));
                        }
                        return false;
                    }
                },
                None => {},
            }
            if mr.has_conflicts {
                proof {
                    assert(final(notifier).queue() =~= old(notifier).queue() + spec_mr_notes_one(
                        *cand,
                        *fetch,
                    ));
                }
                return false;
            }
            match mr.state {
                GlMergeRequestState::Closed => {
                    if cand.notify_on_end {
                        let action = one_action(mr.web_url.clone(), "Открыть MR");
                        notifier.notify(
                            cand.get_title(),
                            Some(String::from_str("MR закрыт!")),
                            action,
                        );
                    }
                    proof {
                        assert(final(notifier).queue() =~= old(notifier).queue()
                            + spec_mr_notes_one(*cand, *fetch));
                    }
                    return false;
                },
                GlMergeRequestState::Opened => {},
                _ => {
                    proof {
                        assert(final(notifier).queue() =~= old(notifier).queue()
                            + spec_mr_notes_one(*cand, *fetch));
                    }
                    return false;
                },
            }
            if !cand.auto_merge {
                let mut body = String::from_str("MR ");
                let digits = u64_to_string(mr.id);
                body.append(digits.as_str());
                body.append(" готов к мерджу!");
                let action = one_action(mr.web_url.clone(), "Открыть MR");
                notifier.notify(cand.get_title(), Some(body), action);
                proof {
                    assert(final(notifier).queue() =~= old(notifier).queue() + spec_mr_notes_one(
                        *cand,
                        *fetch,
                    ));
                }
                return false;
            }
            proof {
                assert(final(notifier).queue() =~= old(notifier).queue() + spec_mr_notes_one(
                    *cand,
                    *fetch,
                ));
            }
            true
        },
    }
}

/// Conflicts newly appearing end the row's cycle at once: exactly the
/// conflict notification is raised, and no merge is attempted, whatever
/// else the fetched state says.
pub proof fn lemma_new_conflict_single_note(cand: WatchMRResult, mr: GlMergeRequest)
    requires
        mr.has_conflicts,
        !cand.has_conflicts,
    ensures
        spec_mr_notes_one(cand, Ok(mr)) == seq![spec_conflict_note(cand, mr)],
        !spec_merge_attempt(cand, Ok(mr)),
{
}

/// The auto-merge gate in one sentence: a merge is attempted exactly when
/// the fetch succeeded, the state read is `opened`, no conflicts are
/// present, no head pipeline stands in the way, and the row asks for
/// auto-merge; and on an attempt no notification is raised for the row.
pub proof fn lemma_merge_attempt_iff(cand: WatchMRResult, fetch: Result<GlMergeRequest, String>)
    ensures
        spec_merge_attempt(cand, fetch) <==> (fetch matches Ok(mr) && mr.state
            is Opened && !mr.has_conflicts && spec_head_pipeline_ok(mr.head_pipeline)
            && cand.auto_merge),
        spec_merge_attempt(cand, fetch) ==> spec_mr_notes_one(cand, fetch) == Seq::<
            NotificationV,
        >::empty(),
{
    match fetch {
        Ok(mr) => {
            if spec_merge_attempt(cand, fetch) {
                assert(spec_mr_notes_one(cand, fetch) =~= Seq::<NotificationV>::empty());
            }
        },
        Err(_) => {},
    }
}

/// The notification raised when a merge attempt came back.
pub open spec fn spec_merge_result_notes(
    cand: WatchMRResult,
    mr: GlMergeRequest,
    merge: Result<GlMergeRequest, String>,
) -> Seq<NotificationV> {
    match merge {
        Ok(_) => {
            if cand.notify_on_end {
                seq![
                    NotificationV {
                        summary: spec_mr_title(cand),
                        body: Some("MR "@ + spec_dec_digits(mr.id as nat) + " смерджен!"@),
                        action: seq![(mr.web_url@, "Открыть MR"@)],
                    },
                ]
            } else {
                Seq::empty()
            }
        },
        Err(e) => seq![
            NotificationV {
                summary: spec_mr_title(cand),
                body: Some("Ошибка мерджа MR: "@ + e@),
                action: seq![(mr.web_url@, "Открыть MR"@)],
            },
        ],
    }
}

/// Applies the outcome of a merge attempt for the row `cand`: on success
/// the row turns `merged` and keeps the returned merge commit, and the row
/// is told of when asked; on failure the row stays as it was, open for a
/// retry next cycle, and the failure is surfaced. `mr` is the fetched
/// state the attempt was decided on.
pub fn apply_merge_result(
    store: &mut Store,
    cand: &WatchMRResult,
    mr: &GlMergeRequest,
    merge: &Result<GlMergeRequest, String>,
    notifier: &mut Notifier,
)
    requires
        old(store).wf(),
    ensures
        final(store).wf(),
        merge matches Err(_) ==> final(store).mrs == old(store).mrs,
        merge matches Ok(m) ==> ({
            if !spec_has_mr(old(store).mrs@, cand.id) {
                final(store).mrs == old(store).mrs
            } else {
                let i = spec_mr_idx(old(store).mrs@, cand.id);
                let row = final(store).mrs@[i];
                final(store).mrs@ == old(store).mrs@.update(i, row) && row.status
                    is Merged && row.merge_commit_sha.deep_view() == m.merge_commit_sha.deep_view()
                    && row.id == old(store).mrs@[i].id && row.mr_id == old(store).mrs@[i].mr_id
                    && row.has_conflicts == old(store).mrs@[i].has_conflicts && row.auto_merge
                    == old(store).mrs@[i].auto_merge && row.notify_on_end == old(
                    store,
                ).mrs@[i].notify_on_end && row.watch_pipline_after_merge == old(
                    store,
                ).mrs@[i].watch_pipline_after_merge
            }
        }),
        final(notifier).queue() == old(notifier).queue() + spec_merge_result_notes(
            *cand,
            *mr,
            *merge,
        ),
        final(store).piplines == old(store).piplines,
        final(store).tasks == old(store).tasks,
        final(store).steps == old(store).steps,
        final(store).next_pipline_id == old(store).next_pipline_id,
        final(store).next_mr_id == old(store).next_mr_id,
        final(store).next_task_id == old(store).next_task_id,
        final(store).next_step_id == old(store).next_step_id,
{
    match merge {
        Ok(merged_mr) => {
            let sha: Option<String> = match &merged_mr.merge_commit_sha {
                Some(s) => Some(s.clone()),
                None => None,
            };
            let found = store.set_mr_merged(cand.id, sha);
            proof {
                if found {
                    let i = choose|i: int|
                        0 <= i < old(store).mrs@.len() && #[trigger] old(store).mrs@[i].id
                            == cand.id && store.mrs@ == old(store).mrs@.update(
                            i,
                            WatchMr {
                                status: GlMergeRequestState::Merged,
                                merge_commit_sha: store.mrs@[i].merge_commit_sha,
                                ..old(store).mrs@[i]
                            },
                        );
                    let c = spec_mr_idx(old(store).mrs@, cand.id);
                    assert(0 <= c < old(store).mrs@.len() && old(store).mrs@[c].id == cand.id);
                    assert(c == i);
                    assert(store.mrs@ =~= old(store).mrs@.update(c, store.mrs@[c]));
                } else {
                    assert(!spec_has_mr(old(store).mrs@, cand.id));
                }
            }
            if cand.notify_on_end {
                let mut body = String::from_str("MR ");
                let digits = u64_to_string(mr.id);
                body.append(digits.as_str());
                body.append(" смерджен!");
                let action = one_action(mr.web_url.clone(), "Открыть MR");
                notifier.notify(cand.get_title(), Some(body), action);
            }
            proof {
                assert(final(notifier).queue() =~= old(notifier).queue()
                    + spec_merge_result_notes(*cand, *mr, *merge));
            }
        },
        Err(err) => {
            let mut body = String::from_str("Ошибка мерджа MR: ");
            body.append(err.as_str());
            let action = one_action(mr.web_url.clone(), "Открыть MR");
            notifier.notify(cand.get_title(), Some(body), action);
            proof {
                assert(final(notifier).queue() =~= old(notifier).queue()
                    + spec_merge_result_notes(*cand, *mr, *merge));
            }
        },
    }
}

/// The rows after a whole merge-request pass over `pairs`.
pub open spec fn spec_run_mr_watch(
    rows: Seq<WatchMr>,
    pairs: Seq<(WatchMRResult, Result<GlMergeRequest, String>)>,
) -> Seq<WatchMr>
    decreases pairs.len(),
{
    if pairs.len() == 0 {
        rows
    } else {
        let prev = spec_run_mr_watch(rows, pairs.drop_last());
        spec_apply_mr_fetch(prev, pairs.last().0, pairs.last().1)
    }
}

/// The notifications a whole merge-request pass raises, in order.
pub open spec fn spec_run_mr_notes(
    pairs: Seq<(WatchMRResult, Result<GlMergeRequest, String>)>,
) -> Seq<NotificationV>
    decreases pairs.len(),
{
    if pairs.len() == 0 {
        Seq::empty()
    } else {
        spec_run_mr_notes(pairs.drop_last()) + spec_mr_notes_one(
            pairs.last().0,
            pairs.last().1,
        )
    }
}

/// The indices of the rows a whole pass decides to merge.
pub open spec fn spec_mr_attempts(
    pairs: Seq<(WatchMRResult, Result<GlMergeRequest, String>)>,
) -> Seq<usize>
    decreases pairs.len(),
{
    if pairs.len() == 0 {
        Seq::empty()
    } else {
        let rest = spec_mr_attempts(pairs.drop_last());
        if spec_merge_attempt(pairs.last().0, pairs.last().1) {
            rest.push((pairs.len() - 1) as usize)
        } else {
            rest
        }
    }
}

/// One merge-request watcher pass: reconciles each candidate against its
/// fetch result and hands back the indices of the pairs whose rows are to
/// be merged now.
pub fn watch_mrs(
    store: &mut Store,
    fetches: &Vec<(WatchMRResult, Result<GlMergeRequest, String>)>,
    notifier: &mut Notifier,
) -> (attempts: Vec<usize>)
    requires
        old(store).wf(),
    ensures
        final(store).wf(),
        final(store).mrs@ == spec_run_mr_watch(old(store).mrs@, fetches@),
        final(notifier).queue() == old(notifier).queue() + spec_run_mr_notes(fetches@),
        attempts@ == spec_mr_attempts(fetches@),
        final(store).piplines == old(store).piplines,
        final(store).tasks == old(store).tasks,
        final(store).steps == old(store).steps,
        final(store).next_pipline_id == old(store).next_pipline_id,
        final(store).next_mr_id == old(store).next_mr_id,
        final(store).next_task_id == old(store).next_task_id,
        final(store).next_step_id == old(store).next_step_id,
{
    let mut attempts: Vec<usize> = Vec::new();
    let mut i: usize = 0;
    proof {
        assert(store.mrs@ =~= spec_run_mr_watch(old(store).mrs@, fetches@.take(0)));
        assert(notifier.queue() =~= old(notifier).queue() + spec_run_mr_notes(fetches@.take(0)));
        assert(attempts@ =~= spec_mr_attempts(fetches@.take(0)));
    }
    while i < fetches.len()
        invariant
            old(store).wf(),
            store.wf(),
            0 <= i <= fetches@.len(),
            store.mrs@ == spec_run_mr_watch(old(store).mrs@, fetches@.take(i as int)),
            notifier.queue() == old(notifier).queue() + spec_run_mr_notes(fetches@.take(i as int)),
            attempts@ == spec_mr_attempts(fetches@.take(i as int)),
            store.piplines == old(store).piplines,
            store.tasks == old(store).tasks,
            store.steps == old(store).steps,
            store.next_pipline_id == old(store).next_pipline_id,
            store.next_mr_id == old(store).next_mr_id,
            store.next_task_id == old(store).next_task_id,
            store.next_step_id == old(store).next_step_id,
        decreases fetches@.len() - i,
    {
        let attempt = watch_mr_row(store, &fetches[i].0, &fetches[i].1, notifier);
        if attempt {
            attempts.push(i);
        }
        proof {
            let t = fetches@.take(i + 1);
            assert(t.drop_last() =~= fetches@.take(i as int));
            assert(t.last() == fetches@[i as int]);
            assert(store.mrs@ == spec_run_mr_watch(old(store).mrs@, t));
            assert(notifier.queue() =~= old(notifier).queue() + spec_run_mr_notes(t));
            assert(attempts@ =~= spec_mr_attempts(t));
        }
        i += 1;
    }
    proof {
        assert(fetches@.take(fetches@.len() as int) =~= fetches@);
    }
    attempts
}

} // verus!
