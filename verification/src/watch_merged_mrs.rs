//! The merge-completion detector: finds watched merge requests that
//! produced a merge commit no pipeline row tracks yet, and registers a
//! watch for the commit's pipeline once the remote reports one, so the
//! post-merge pipeline's outcome is surfaced. The remote lookup happens
//! outside the library; a pass receives each candidate paired with its
//! lookup result.

use vstd::prelude::*;
use crate::gitlab::GlPipeline;
use crate::models::{WatchMr, WatchPipilineV};
use crate::store::{spec_sha_watched, Store};

verus! {

/// One candidate: a merged watch row's project and merge commit.
#[derive(Debug)]
pub struct MergedMrResult {
    pub merge_commit_sha: String,
    pub project_id: i32,
}

/// A row is a candidate when it asked for its post-merge pipeline to be
/// watched, carries a merge commit, and no pipeline row tracks that
/// commit yet.
pub open spec fn spec_merged_candidate(row: WatchMr, piplines: Seq<WatchPipilineV>) -> bool {
    &&& row.watch_pipline_after_merge
    &&& row.merge_commit_sha is Some
    &&& !spec_sha_watched(piplines, row.merge_commit_sha->0@)
}

/// The candidates of one detector pass, as (project, commit) pairs in
/// storage order.
pub open spec fn spec_merged_mr_candidates(
    rows: Seq<WatchMr>,
    piplines: Seq<WatchPipilineV>,
) -> Seq<(i32, Seq<char>)>
    decreases rows.len(),
{
    if rows.len() == 0 {
        Seq::empty()
    } else {
        let rest = spec_merged_mr_candidates(rows.drop_last(), piplines);
        if spec_merged_candidate(rows.last(), piplines) {
            rest.push((rows.last().project_id, rows.last().merge_commit_sha->0@))
        } else {
            rest
        }
    }
}

/// No two pipeline rows track the same commit.
pub open spec fn spec_sha_unique(rows: Seq<WatchPipilineV>) -> bool {
    forall|i: int, j: int|
        0 <= i < j < rows.len() ==> !(#[trigger] rows[i].sha matches Some(a)
            && #[trigger] rows[j].sha matches Some(b) && a == b)
}

/// The row the detector registers when pipeline `p` is first seen for a
/// candidate of `project_id`: it tracks `p`'s commit and asks to be told
/// of the outcome.
pub open spec fn spec_detector_row(p: GlPipeline, project_id: i32, next_id: int) -> WatchPipilineV {
    WatchPipilineV {
        id: next_id,
        gl_pipline_id: p.id as int,
        project_id: project_id as int,
        web_url: p.web_url@,
        status: p.status,
        fail_message: Seq::empty(),
        sha: Some(p.sha@),
        notify_on_end: true,
    }
}

/// The pipeline rows and the next free id after one candidate's lookup
/// result: a found pipeline whose commit no row tracks appends exactly
/// [`spec_detector_row`]; a failed lookup, a commit whose pipeline has
/// not started yet, and a commit some row already tracks change nothing.
pub open spec fn spec_apply_detector(
    rows: Seq<WatchPipilineV>,
    next_id: int,
    project_id: i32,
    fetch: Result<Option<GlPipeline>, String>,
) -> (Seq<WatchPipilineV>, int) {
    match fetch {
        Ok(op) => match op {
            Some(p) => {
                if spec_sha_watched(rows, p.sha@) {
                    (rows, next_id)
                } else {
                    (rows.push(spec_detector_row(p, project_id, next_id)), next_id + 1)
                }
            },
            None => (rows, next_id),
        },
        Err(_) => (rows, next_id),
    }
}

/// The pipeline rows and the next free id after a whole detector pass
/// over `pairs`, applied left to right.
pub open spec fn spec_run_detector(
    rows: Seq<WatchPipilineV>,
    next_id: int,
    pairs: Seq<(MergedMrResult, Result<Option<GlPipeline>, String>)>,
) -> (Seq<WatchPipilineV>, int)
    decreases pairs.len(),
{
    if pairs.len() == 0 {
        (rows, next_id)
    } else {
        let prev = spec_run_detector(rows, next_id, pairs.drop_last());
        spec_apply_detector(prev.0, prev.1, pairs.last().0.project_id, pairs.last().1)
    }
}

/// Snapshots the candidates of one detector pass.
pub fn merged_mr_candidates(store: &Store) -> (r: Vec<MergedMrResult>)
    ensures
        r@.len() == spec_merged_mr_candidates(store.mrs@, store.piplines.deep_view()).len(),
        forall|k: int|
            0 <= k < r@.len() ==> (#[trigger] r@[k]).project_id == spec_merged_mr_candidates(
                store.mrs@,
                store.piplines.deep_view(),
            )[k].0 && r@[k].merge_commit_sha@ == spec_merged_mr_candidates(
                store.mrs@,
                store.piplines.deep_view(),
            )[k].1,
{
    let mut r: Vec<MergedMrResult> = Vec::new();
    let mut i: usize = 0;
    proof {
        assert(spec_merged_mr_candidates(store.mrs@.take(0), store.piplines.deep_view())
            =~= Seq::<(i32, Seq<char>)>::empty());
    }
    while i < store.mrs.len()
        invariant
            0 <= i <= store.mrs@.len(),
            r@.len() == spec_merged_mr_candidates(
                store.mrs@.take(i as int),
                store.piplines.deep_view(),
            ).len(),
            forall|k: int|
                0 <= k < r@.len() ==> (#[trigger] r@[k]).project_id == spec_merged_mr_candidates(
                    store.mrs@.take(i as int),
                    store.piplines.deep_view(),
                )[k].0 && r@[k].merge_commit_sha@ == spec_merged_mr_candidates(
                    store.mrs@.take(i as int),
                    store.piplines.deep_view(),
                )[k].1,
        decreases store.mrs@.len() - i,
    {
        let row = &store.mrs[i];
        if row.watch_pipline_after_merge {
            match &row.merge_commit_sha {
                Some(sha) => {
                    if !store.sha_watched(sha) {
                        r.push(
                            MergedMrResult {
                                merge_commit_sha: sha.clone(),
                                project_id: row.project_id,
                            },
                        );
                    }
                },
                None => {},
            }
        }
        proof {
            let t = store.mrs@.take(i + 1);
            assert(t.drop_last() =~= store.mrs@.take(i as int));
            assert(t.last() == store.mrs@[i as int]);
        }
        i += 1;
    }
    proof {
        assert(store.mrs@.take(store.mrs@.len() as int) =~= store.mrs@);
    }
    r
}

/// Registers a pipeline watch for one candidate's lookup result, exactly
/// as [`spec_apply_detector`] says; no commit ends up tracked twice.
pub fn watch_merged_mr_row(
    store: &mut Store,
    project_id: i32,
    fetch: &Result<Option<GlPipeline>, String>,
)
    requires
        old(store).wf(),
        old(store).next_pipline_id < i32::MAX,
        fetch matches Ok(op) && op matches Some(p) ==> p.id <= i32::MAX,
    ensures
        final(store).wf(),
        final(store).piplines.deep_view() == spec_apply_detector(
            old(store).piplines.deep_view(),
            old(store).next_pipline_id as int,
            project_id,
            *fetch,
        ).0,
        final(store).next_pipline_id as int == spec_apply_detector(
            old(store).piplines.deep_view(),
            old(store).next_pipline_id as int,
            project_id,
            *fetch,
        ).1,
        spec_sha_unique(old(store).piplines.deep_view()) ==> spec_sha_unique(
            final(store).piplines.deep_view(),
        ),
        final(store).mrs == old(store).mrs,
        final(store).tasks == old(store).tasks,
        final(store).steps == old(store).steps,
        final(store).next_mr_id == old(store).next_mr_id,
        final(store).next_task_id == old(store).next_task_id,
        final(store).next_step_id == old(store).next_step_id,
{
    match fetch {
        Err(_) => {},
        Ok(None) => {},
        Ok(Some(p)) => {
            if !store.sha_watched(&p.sha) {
                store.insert_pipline(
                    p.id as i32,
                    project_id,
                    p.web_url.clone(),
                    p.status,
                    Some(p.sha.clone()),
                    true,
                );
                proof {
                    let pre = old(store).piplines.deep_view();
                    let rowv = store.piplines.deep_view().last();
                    assert(p.id as i32 as int == p.id as int);
                    assert(rowv.fail_message =~= Seq::<char>::empty());
                    assert(rowv == spec_detector_row(
                        *p,
                        project_id,
                        old(store).next_pipline_id as int,
                    ));
                    assert forall|k: int| 0 <= k < pre.len() implies store.piplines.deep_view()[k]
                        == pre[k] by {
                        assert(store.piplines@[k] == old(store).piplines@[k]);
                    }
                    assert(store.piplines.deep_view() =~= pre.push(rowv));
                    if spec_sha_unique(pre) {
                        assert forall|i: int, j: int|
                            0 <= i < j < store.piplines.deep_view().len() implies !(
                            #[trigger] store.piplines.deep_view()[i].sha matches Some(a)
                                && #[trigger] store.piplines.deep_view()[j].sha matches Some(b)
                                && a == b) by {
                            if j < pre.len() {
                                assert(store.piplines.deep_view()[i] == pre[i]);
                                assert(store.piplines.deep_view()[j] == pre[j]);
                            } else {
                                assert(store.piplines.deep_view()[j] == rowv);
                                assert(store.piplines.deep_view()[i] == pre[i]);
                                assert(!(pre[i].sha matches Some(a) && a == p.sha@));
                            }
                        }
                    }
                }
            }
        },
    }
}

/// One detector pass: looks at each candidate's lookup result in order,
/// exactly as [`spec_run_detector`] says; in particular, no commit ends
/// up tracked twice.
pub fn watch_merged_mrs(
    store: &mut Store,
    fetches: &Vec<(MergedMrResult, Result<Option<GlPipeline>, String>)>,
)
    requires
        old(store).wf(),
        old(store).next_pipline_id + fetches@.len() <= i32::MAX,
        forall|k: int|
            0 <= k < fetches@.len() ==> ((#[trigger] fetches@[k].1) matches Ok(op) && op matches Some(
                p,
            ) ==> p.id <= i32::MAX),
    ensures
        final(store).wf(),
        final(store).piplines.deep_view() == spec_run_detector(
            old(store).piplines.deep_view(),
            old(store).next_pipline_id as int,
            fetches@,
        ).0,
        final(store).next_pipline_id as int == spec_run_detector(
            old(store).piplines.deep_view(),
            old(store).next_pipline_id as int,
            fetches@,
        ).1,
        spec_sha_unique(old(store).piplines.deep_view()) ==> spec_sha_unique(
            final(store).piplines.deep_view(),
        ),
        final(store).mrs == old(store).mrs,
        final(store).tasks == old(store).tasks,
        final(store).steps == old(store).steps,
        final(store).next_mr_id == old(store).next_mr_id,
        final(store).next_task_id == old(store).next_task_id,
        final(store).next_step_id == old(store).next_step_id,
{
    let mut i: usize = 0;
    proof {
        assert(store.piplines.deep_view() =~= spec_run_detector(
            old(store).piplines.deep_view(),
            old(store).next_pipline_id as int,
            fetches@.take(0),
        ).0);
    }
    while i < fetches.len()
        invariant
            store.wf(),
            0 <= i <= fetches@.len(),
            forall|k: int|
                0 <= k < fetches@.len() ==> ((#[trigger] fetches@[k].1) matches Ok(op)
                    && op matches Some(p) ==> p.id <= i32::MAX),
            store.next_pipline_id + (fetches@.len() - i) <= i32::MAX,
            store.piplines.deep_view() == spec_run_detector(
                old(store).piplines.deep_view(),
                old(store).next_pipline_id as int,
                fetches@.take(i as int),
            ).0,
            store.next_pipline_id as int == spec_run_detector(
                old(store).piplines.deep_view(),
                old(store).next_pipline_id as int,
                fetches@.take(i as int),
            ).1,
            spec_sha_unique(old(store).piplines.deep_view()) ==> spec_sha_unique(
                store.piplines.deep_view(),
            ),
            store.mrs == old(store).mrs,
            store.tasks == old(store).tasks,
            store.steps == old(store).steps,
            store.next_mr_id == old(store).next_mr_id,
            store.next_task_id == old(store).next_task_id,
            store.next_step_id == old(store).next_step_id,
        decreases fetches@.len() - i,
    {
        watch_merged_mr_row(store, fetches[i].0.project_id, &fetches[i].1);
        proof {
            let t = fetches@.take(i + 1);
            assert(t.drop_last() =~= fetches@.take(i as int));
            assert(t.last() == fetches@[i as int]);
            assert(store.piplines.deep_view() == spec_run_detector(
                old(store).piplines.deep_view(),
                old(store).next_pipline_id as int,
                t,
            ).0);
            assert(store.next_pipline_id as int == spec_run_detector(
                old(store).piplines.deep_view(),
                old(store).next_pipline_id as int,
                t,
            ).1);
        }
        i += 1;
    }
    proof {
        assert(fetches@.take(fetches@.len() as int) =~= fetches@);
    }
}

} // verus!
