//! The pipeline watcher: reconciles each non-terminal watched pipeline
//! against what the remote reported, writes the fresh status back, and
//! raises a notification on terminal outcomes. The remote fetches
//! themselves happen outside the library; a pass receives each candidate
//! row paired with its fetch result.

use vstd::prelude::*;
use crate::gitlab::GlPipeline;
use crate::models::WatchPipiline;
use crate::notify::{Notifier, NotificationV};
use crate::status::{spec_is_cancelled, spec_is_success, spec_is_terminal};
use crate::store::Store;
use crate::strutil::{spec_dec_digits, u64_to_string};

verus! {

/// The fields of a watched pipeline that one reconciliation reads.
#[derive(Debug, Clone, Copy, PartialEq, Eq, Structural)]
pub struct WatchPipilineResult {
    pub id: i32,
    pub gl_pipline_id: i32,
    pub project_id: i32,
    pub notify_on_end: bool,
}

/// A row is a candidate while its status is not terminal.
pub open spec fn spec_pipline_candidate(p: WatchPipiline) -> bool {
    !spec_is_terminal(p.status)
}

/// The candidate's reconciliation snapshot.
pub open spec fn spec_pipline_result(p: WatchPipiline) -> WatchPipilineResult {
    WatchPipilineResult {
        id: p.id,
        gl_pipline_id: p.gl_pipline_id,
        project_id: p.project_id,
        notify_on_end: p.notify_on_end,
    }
}

/// The snapshots of all candidate rows, in storage order.
pub open spec fn spec_pipline_candidates(rows: Seq<WatchPipiline>) -> Seq<WatchPipilineResult>
    decreases rows.len(),
{
    if rows.len() == 0 {
        Seq::empty()
    } else {
        let rest = spec_pipline_candidates(rows.drop_last());
        if spec_pipline_candidate(rows.last()) {
            rest.push(spec_pipline_result(rows.last()))
        } else {
            rest
        }
    }
}

/// Some pipeline row carries local id `id`.
pub open spec fn spec_has_pipline(rows: Seq<WatchPipiline>, id: i32) -> bool {
    exists|i: int| 0 <= i < rows.len() && #[trigger] rows[i].id == id
}

/// The index of the pipeline row with local id `id`.
pub open spec fn spec_pipline_idx(rows: Seq<WatchPipiline>, id: i32) -> int {
    choose|i: int| 0 <= i < rows.len() && #[trigger] rows[i].id == id
}

/// The rows after one candidate's reconciliation: on a successful fetch
/// the row's status is overwritten with what the remote reported; a failed
/// fetch, or a vanished row, changes nothing.
pub open spec fn spec_apply_pipline_fetch(
    rows: Seq<WatchPipiline>,
    cand: WatchPipilineResult,
    fetch: Result<GlPipeline, String>,
) -> Seq<WatchPipiline> {
    match fetch {
        Ok(p) => {
            if spec_has_pipline(rows, cand.id) {
                let i = spec_pipline_idx(rows, cand.id);
                rows.update(i, WatchPipiline { status: p.status, ..rows[i] })
            } else {
                rows
            }
        },
        Err(_) => rows,
    }
}

/// The notification a terminal pipeline outcome raises.
pub open spec fn spec_pipline_note(p: GlPipeline) -> NotificationV {
    NotificationV {
        summary: if spec_is_cancelled(p.status) {
            "Ошибка пайплайна"@
        } else {
            "Пайплайн завершился!"@
        },
        body: Some(
            if spec_is_cancelled(p.status) {
                "Пайплайн "@ + spec_dec_digits(p.id as nat) + " упал или был отменен"@
            } else {
                "Пайплайн "@ + spec_dec_digits(p.id as nat) + " успешно выполнился!"@
            },
        ),
        action: seq![(p.web_url@, "Открыть пайплайн"@)],
    }
}

/// The notifications one candidate's reconciliation raises: exactly one,
/// when the row was written back, the row asked to be told, and the fresh
/// status is terminal; none otherwise.
pub open spec fn spec_pipline_notes_one(
    rows: Seq<WatchPipiline>,
    cand: WatchPipilineResult,
    fetch: Result<GlPipeline, String>,
) -> Seq<NotificationV> {
    match fetch {
        Ok(p) => {
            if spec_has_pipline(rows, cand.id) && cand.notify_on_end && spec_is_terminal(
                p.status,
            ) {
                seq![spec_pipline_note(p)]
            } else {
                Seq::empty()
            }
        },
        Err(_) => Seq::empty(),
    }
}

/// The rows after a whole pass over `pairs`, applied left to right.
pub open spec fn spec_run_pipline_watch(
    rows: Seq<WatchPipiline>,
    pairs: Seq<(WatchPipilineResult, Result<GlPipeline, String>)>,
) -> Seq<WatchPipiline>
    decreases pairs.len(),
{
    if pairs.len() == 0 {
        rows
    } else {
        let prev = spec_run_pipline_watch(rows, pairs.drop_last());
        spec_apply_pipline_fetch(prev, pairs.last().0, pairs.last().1)
    }
}

/// The notifications a whole pass over `pairs` raises, in order.
pub open spec fn spec_run_pipline_notes(
    rows: Seq<WatchPipiline>,
    pairs: Seq<(WatchPipilineResult, Result<GlPipeline, String>)>,
) -> Seq<NotificationV>
    decreases pairs.len(),
{
    if pairs.len() == 0 {
        Seq::empty()
    } else {
        let prev = spec_run_pipline_watch(rows, pairs.drop_last());
        spec_run_pipline_notes(rows, pairs.drop_last()) + spec_pipline_notes_one(
            prev,
            pairs.last().0,
            pairs.last().1,
        )
    }
}

/// Snapshots the candidate rows of one reconciliation pass: every watched
/// pipeline whose status is not yet terminal.
pub fn pipline_candidates(store: &Store) -> (r: Vec<WatchPipilineResult>)
    ensures
        r@ == spec_pipline_candidates(store.piplines@),
{
    let mut r: Vec<WatchPipilineResult> = Vec::new();
    let mut i: usize = 0;
    proof {
        assert(r@ =~= spec_pipline_candidates(store.piplines@.take(0)));
    }
    while i < store.piplines.len()
        invariant
            0 <= i <= store.piplines@.len(),
            r@ == spec_pipline_candidates(store.piplines@.take(i as int)),
        decreases store.piplines@.len() - i,
    {
        let p = &store.piplines[i];
        if !(p.status.is_success() || p.status.is_cancelled()) {
            r.push(
                WatchPipilineResult {
                    id: p.id,
                    gl_pipline_id: p.gl_pipline_id,
                    project_id: p.project_id,
                    notify_on_end: p.notify_on_end,
                },
            );
        }
        proof {
            let t = store.piplines@.take(i + 1);
            assert(t.drop_last() =~= store.piplines@.take(i as int));
            assert(t.last() == store.piplines@[i as int]);
        }
        i += 1;
    }
    proof {
        assert(store.piplines@.take(store.piplines@.len() as int) =~= store.piplines@);
    }
    r
}

/// The message body announcing a terminal pipeline.
fn pipline_note_body(p: &GlPipeline) -> (r: String)
    ensures
        r@ == spec_pipline_note(*p).body->0,
{
    let mut r = String::from_str("Пайплайн ");
    let digits = u64_to_string(p.id);
    r.append(digits.as_str());
    if p.status.is_cancelled() {
        r.append(" упал или был отменен");
    } else {
        r.append(" успешно выполнился!");
    }
    r
}

/// Reconciles one watched pipeline against its fetch result: writes the
/// fresh status back and, when the row asked to be told of a terminal
/// outcome, raises exactly one notification for it. A failed fetch leaves
/// the store and the queue untouched; a failed write suppresses the
/// notification.
pub fn watch_pipline_row(
    store: &mut Store,
    cand: &WatchPipilineResult,
    fetch: &Result<GlPipeline, String>,
    notifier: &mut Notifier,
)
    requires
        old(store).wf(),
    ensures
        final(store).wf(),
        final(store).piplines@ == spec_apply_pipline_fetch(old(store).piplines@, *cand, *fetch),
        final(notifier).queue() == old(notifier).queue() + spec_pipline_notes_one(
            old(store).piplines@,
            *cand,
            *fetch,
        ),
        final(store).mrs == old(store).mrs,
        final(store).tasks == old(store).tasks,
        final(store).steps == old(store).steps,
        final(store).next_pipline_id == old(store).next_pipline_id,
        final(store).next_mr_id == old(store).next_mr_id,
        final(store).next_task_id == old(store).next_task_id,
        final(store).next_step_id == old(store).next_step_id,
{
    match fetch {
        Err(_) => {
            proof {
                assert(final(notifier).queue() =~= old(notifier).queue()
                    + spec_pipline_notes_one(old(store).piplines@, *cand, *fetch));
            }
        },
        Ok(p) => {
            let found = store.update_pipline_status(cand.id, p.status);
            proof {
                if found {
                    let i = choose|i: int|
                        0 <= i < old(store).piplines@.len()
                            && #[trigger] old(store).piplines@[i].id == cand.id
                            && store.piplines@ == old(store).piplines@.update(
                            i,
                            WatchPipiline { status: p.status, ..old(store).piplines@[i] },
                        );
                    let c = spec_pipline_idx(old(store).piplines@, cand.id);
                    assert(0 <= c < old(store).piplines@.len()
                        && old(store).piplines@[c].id == cand.id);
                    assert(c == i);
                } else {
                    assert(!spec_has_pipline(old(store).piplines@, cand.id));
                }
            }
            if found && cand.notify_on_end {
                let terminal = p.status.is_cancelled() || p.status.is_success();
                if terminal {
                    let title = if p.status.is_cancelled() {
                        String::from_str("Ошибка пайплайна")
                    } else {
                        String::from_str("Пайплайн завершился!")
                    };
                    let body = pipline_note_body(p);
                    let mut action: Vec<(String, String)> = Vec::new();
                    action.push((p.web_url.clone(), String::from_str("Открыть пайплайн")));
                    proof {
                        assert(action.deep_view() =~= seq![(p.web_url@, "Открыть пайплайн"@)]);
                    }
                    notifier.notify(title, Some(body), action);
                    proof {
                        assert(final(notifier).queue() =~= old(notifier).queue()
                            + spec_pipline_notes_one(old(store).piplines@, *cand, *fetch));
                    }
                } else {
                    proof {
                        assert(final(notifier).queue() =~= old(notifier).queue()
                            + spec_pipline_notes_one(old(store).piplines@, *cand, *fetch));
                    }
                }
            } else {
                proof {
                    assert(final(notifier).queue() =~= old(notifier).queue()
                        + spec_pipline_notes_one(old(store).piplines@, *cand, *fetch));
                }
            }
        },
    }
}

/// One pipeline-watcher pass: reconciles each candidate row against its
/// fetch result, left to right.
pub fn watch_piplines(
    store: &mut Store,
    fetches: &Vec<(WatchPipilineResult, Result<GlPipeline, String>)>,
    notifier: &mut Notifier,
)
    requires
        old(store).wf(),
    ensures
        final(store).wf(),
        final(store).piplines@ == spec_run_pipline_watch(old(store).piplines@, fetches@),
        final(notifier).queue() == old(notifier).queue() + spec_run_pipline_notes(
            old(store).piplines@,
            fetches@,
        ),
        final(store).mrs == old(store).mrs,
        final(store).tasks == old(store).tasks,
        final(store).steps == old(store).steps,
        final(store).next_pipline_id == old(store).next_pipline_id,
        final(store).next_mr_id == old(store).next_mr_id,
        final(store).next_task_id == old(store).next_task_id,
        final(store).next_step_id == old(store).next_step_id,
{
    let mut i: usize = 0;
    proof {
        assert(store.piplines@ =~= spec_run_pipline_watch(
            old(store).piplines@,
            fetches@.take(0),
        ));
        assert(notifier.queue() =~= old(notifier).queue() + spec_run_pipline_notes(
            old(store).piplines@,
            fetches@.take(0),
        ));
    }
    while i < fetches.len()
        invariant
            old(store).wf(),
            store.wf(),
            0 <= i <= fetches@.len(),
            store.piplines@ == spec_run_pipline_watch(old(store).piplines@, fetches@.take(i as int)),
            notifier.queue() == old(notifier).queue() + spec_run_pipline_notes(
                old(store).piplines@,
                fetches@.take(i as int),
            ),
            store.mrs == old(store).mrs,
            store.tasks == old(store).tasks,
            store.steps == old(store).steps,
            store.next_pipline_id == old(store).next_pipline_id,
            store.next_mr_id == old(store).next_mr_id,
            store.next_task_id == old(store).next_task_id,
            store.next_step_id == old(store).next_step_id,
        decreases fetches@.len() - i,
    {
        let ghost pre_rows = store.piplines@;
        let ghost pre_queue = notifier.queue();
        watch_pipline_row(store, &fetches[i].0, &fetches[i].1, notifier);
        proof {
            let t = fetches@.take(i + 1);
            assert(t.drop_last() =~= fetches@.take(i as int));
            assert(t.last() == fetches@[i as int]);
            assert(store.piplines@ == spec_run_pipline_watch(old(store).piplines@, t));
            assert(notifier.queue() =~= old(notifier).queue() + spec_run_pipline_notes(
                old(store).piplines@,
                t,
            ));
        }
        i += 1;
    }
    proof {
        assert(fetches@.take(fetches@.len() as int) =~= fetches@);
    }
}

} // verus!
