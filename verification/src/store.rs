//! The store: the four persisted collections the engine reconciles, held as
//! plain rows with unique, monotonically allocated local identifiers.
//! Reading and writing the embedded database file happens outside the
//! library; the engine's passes run against this in-memory image.

use vstd::prelude::*;
use crate::models::{ChainmrStep, ChainmrTask, WatchMr, WatchPipiline};
use crate::status::{ChainmrStatus, GlMergeRequestState, GlPiplineStatus};

verus! {

/// The four persisted collections, with the next free local id of each.
#[derive(Debug)]
pub struct Store {
    pub piplines: Vec<WatchPipiline>,
    pub mrs: Vec<WatchMr>,
    pub tasks: Vec<ChainmrTask>,
    pub steps: Vec<ChainmrStep>,
    pub next_pipline_id: i32,
    pub next_mr_id: i32,
    pub next_task_id: i32,
    pub next_step_id: i32,
}

/// Pipeline rows carry distinct ids, all below `next`.
pub open spec fn piplines_wf(s: Seq<WatchPipiline>, next: int) -> bool {
    &&& forall|i: int| 0 <= i < s.len() ==> 0 <= #[trigger] s[i].id < next
    &&& forall|i: int, j: int| 0 <= i < j < s.len() ==> #[trigger] s[i].id != #[trigger] s[j].id
}

/// Merge-request rows carry distinct ids, all below `next`.
pub open spec fn mrs_wf(s: Seq<WatchMr>, next: int) -> bool {
    &&& forall|i: int| 0 <= i < s.len() ==> 0 <= #[trigger] s[i].id < next
    &&& forall|i: int, j: int| 0 <= i < j < s.len() ==> #[trigger] s[i].id != #[trigger] s[j].id
}

/// Task rows carry distinct ids, all below `next`.
pub open spec fn tasks_wf(s: Seq<ChainmrTask>, next: int) -> bool {
    &&& forall|i: int| 0 <= i < s.len() ==> 0 <= #[trigger] s[i].id < next
    &&& forall|i: int, j: int| 0 <= i < j < s.len() ==> #[trigger] s[i].id != #[trigger] s[j].id
}

/// Step rows carry distinct ids, all below `next`.
pub open spec fn steps_wf(s: Seq<ChainmrStep>, next: int) -> bool {
    &&& forall|i: int| 0 <= i < s.len() ==> 0 <= #[trigger] s[i].id < next
    &&& forall|i: int, j: int| 0 <= i < j < s.len() ==> #[trigger] s[i].id != #[trigger] s[j].id
}

/// Some pipeline row tracks commit `sha`.
pub open spec fn spec_sha_watched(piplines: Seq<crate::models::WatchPipilineV>, sha: Seq<char>) -> bool {
    exists|i: int|
        0 <= i < piplines.len() && (#[trigger] piplines[i].sha matches Some(s) && s == sha)
}

impl Store {
    /// Well-formedness: each collection's ids are distinct and below its
    /// next free id.
    pub open spec fn wf(&self) -> bool {
        &&& self.next_pipline_id >= 0
        &&& self.next_mr_id >= 0
        &&& self.next_task_id >= 0
        &&& self.next_step_id >= 0
        &&& piplines_wf(self.piplines@, self.next_pipline_id as int)
        &&& mrs_wf(self.mrs@, self.next_mr_id as int)
        &&& tasks_wf(self.tasks@, self.next_task_id as int)
        &&& steps_wf(self.steps@, self.next_step_id as int)
    }

    /// An empty store, with every next free id at its start.
    pub fn new() -> (r: Store)
        ensures
            r.wf(),
            r.piplines@.len() == 0,
            r.mrs@.len() == 0,
            r.tasks@.len() == 0,
            r.steps@.len() == 0,
            r.next_pipline_id == 1,
            r.next_mr_id == 1,
            r.next_task_id == 1,
            r.next_step_id == 1,
    {
        Store {
            piplines: Vec::new(),
            mrs: Vec::new(),
            tasks: Vec::new(),
            steps: Vec::new(),
            next_pipline_id: 1,
            next_mr_id: 1,
            next_task_id: 1,
            next_step_id: 1,
        }
    }

    /// The index of the pipeline row with local id `id`.
    pub fn find_pipline(&self, id: i32) -> (r: Option<usize>)
        ensures
            match r {
                Some(i) => i < self.piplines@.len() && self.piplines@[i as int].id == id,
                None => forall|i: int|
                    0 <= i < self.piplines@.len() ==> #[trigger] self.piplines@[i].id != id,
            },
    {
        let mut i: usize = 0;
        while i < self.piplines.len()
            invariant
                0 <= i <= self.piplines@.len(),
                forall|k: int| 0 <= k < i ==> #[trigger] self.piplines@[k].id != id,
            decreases self.piplines@.len() - i,
        {
            if self.piplines[i].id == id {
                return Some(i);
            }
            i += 1;
        }
        None
    }

    /// The index of the merge-request row with local id `id`.
    pub fn find_mr(&self, id: i32) -> (r: Option<usize>)
        ensures
            match r {
                Some(i) => i < self.mrs@.len() && self.mrs@[i as int].id == id,
                None => forall|i: int|
                    0 <= i < self.mrs@.len() ==> #[trigger] self.mrs@[i].id != id,
            },
    {
        let mut i: usize = 0;
        while i < self.mrs.len()
            invariant
                0 <= i <= self.mrs@.len(),
                forall|k: int| 0 <= k < i ==> #[trigger] self.mrs@[k].id != id,
            decreases self.mrs@.len() - i,
        {
            if self.mrs[i].id == id {
                return Some(i);
            }
            i += 1;
        }
        None
    }

    /// The index of the task row with local id `id`.
    pub fn find_task(&self, id: i32) -> (r: Option<usize>)
        ensures
            match r {
                Some(i) => i < self.tasks@.len() && self.tasks@[i as int].id == id,
                None => forall|i: int|
                    0 <= i < self.tasks@.len() ==> #[trigger] self.tasks@[i].id != id,
            },
    {
        let mut i: usize = 0;
        while i < self.tasks.len()
            invariant
                0 <= i <= self.tasks@.len(),
                forall|k: int| 0 <= k < i ==> #[trigger] self.tasks@[k].id != id,
            decreases self.tasks@.len() - i,
        {
            if self.tasks[i].id == id {
                return Some(i);
            }
            i += 1;
        }
        None
    }

    /// The index of the step row with local id `id`.
    pub fn find_step(&self, id: i32) -> (r: Option<usize>)
        ensures
            match r {
                Some(i) => i < self.steps@.len() && self.steps@[i as int].id == id,
                None => forall|i: int|
                    0 <= i < self.steps@.len() ==> #[trigger] self.steps@[i].id != id,
            },
    {
        let mut i: usize = 0;
        while i < self.steps.len()
            invariant
                0 <= i <= self.steps@.len(),
                forall|k: int| 0 <= k < i ==> #[trigger] self.steps@[k].id != id,
            decreases self.steps@.len() - i,
        {
            if self.steps[i].id == id {
                return Some(i);
            }
            i += 1;
        }
        None
    }

    /// Whether some pipeline row already tracks commit `sha`.
    pub fn sha_watched(&self, sha: &String) -> (r: bool)
        ensures
            r == spec_sha_watched(self.piplines.deep_view(), sha@),
    {
        let mut i: usize = 0;
        while i < self.piplines.len()
            invariant
                0 <= i <= self.piplines@.len(),
                forall|k: int|
                    0 <= k < i ==> !(#[trigger] self.piplines.deep_view()[k].sha matches Some(s)
                        && s == sha@),
            decreases self.piplines@.len() - i,
        {
            match &self.piplines[i].sha {
                Some(s) => {
                    if crate::strutil::str_eq(s.as_str(), sha.as_str()) {
                        proof {
                            assert(0 <= i < self.piplines.deep_view().len()
                                && (#[trigger] self.piplines.deep_view()[i as int].sha
                                matches Some(t) && t == sha@));
                        }
                        return true;
                    }
                },
                None => {},
            }
            proof {
                assert(!(self.piplines.deep_view()[i as int].sha matches Some(s) && s == sha@));
            }
            i += 1;
        }
        false
    }

    /// Registers a new pipeline watch row and returns its local id.
    pub fn insert_pipline(
        &mut self,
        gl_pipline_id: i32,
        project_id: i32,
        web_url: String,
        status: GlPiplineStatus,
        sha: Option<String>,
        notify_on_end: bool,
    ) -> (id: i32)
        requires
            old(self).wf(),
            old(self).next_pipline_id < i32::MAX,
        ensures
            final(self).wf(),
            id == old(self).next_pipline_id,
            final(self).next_pipline_id == old(self).next_pipline_id + 1,
            final(self).piplines@.len() == old(self).piplines@.len() + 1,
            final(self).piplines@ == old(self).piplines@.push(final(self).piplines@.last()),
            ({
                let row = final(self).piplines@.last();
                row.id == id && row.gl_pipline_id == gl_pipline_id && row.project_id == project_id
                    && row.web_url == web_url && row.status == status && row.fail_message@.len() == 0
                    && row.sha == sha && row.notify_on_end == notify_on_end
            }),
            final(self).mrs == old(self).mrs,
            final(self).tasks == old(self).tasks,
            final(self).steps == old(self).steps,
            final(self).next_mr_id == old(self).next_mr_id,
            final(self).next_task_id == old(self).next_task_id,
            final(self).next_step_id == old(self).next_step_id,
    {
        let id = self.next_pipline_id;
        let row = WatchPipiline {
            id,
            gl_pipline_id,
            project_id,
            web_url,
            status,
            fail_message: String::new(),
            sha,
            notify_on_end,
        };
        let ghost grow = row;
        self.piplines.push(row);
        self.next_pipline_id = self.next_pipline_id + 1;
        proof {
            assert(self.piplines@ == old(self).piplines@.push(grow));
            assert forall|i: int| 0 <= i < self.piplines@.len() implies 0 <= #[trigger] self.piplines@[i].id
                < self.next_pipline_id by {
                if i < old(self).piplines@.len() {
                    assert(self.piplines@[i] == old(self).piplines@[i]);
                    assert(0 <= old(self).piplines@[i].id < old(self).next_pipline_id);
                } else {
                    assert(self.piplines@[i] == grow);
                    assert(grow.id == id);
                }
            }
            assert forall|i: int, j: int| 0 <= i < j < self.piplines@.len() implies
                #[trigger] self.piplines@[i].id != #[trigger] self.piplines@[j].id by {
                assert(self.piplines@[i] == old(self).piplines@[i]);
                assert(0 <= old(self).piplines@[i].id < old(self).next_pipline_id);
                if j < old(self).piplines@.len() {
                    assert(self.piplines@[j] == old(self).piplines@[j]);
                } else {
                    assert(self.piplines@[j] == grow);
                    assert(grow.id == id);
                }
            }
        }
        id
    }

    /// Registers a new merge-request watch row and returns its local id.
    pub fn insert_mr(
        &mut self,
        mr_id: i32,
        project_id: i32,
        web_url: String,
        status: GlMergeRequestState,
        has_conflicts: bool,
        notify_on_end: bool,
        merge_commit_sha: Option<String>,
        auto_merge: bool,
        watch_pipline_after_merge: bool,
    ) -> (id: i32)
        requires
            old(self).wf(),
            old(self).next_mr_id < i32::MAX,
        ensures
            final(self).wf(),
            id == old(self).next_mr_id,
            final(self).next_mr_id == old(self).next_mr_id + 1,
            final(self).mrs@.len() == old(self).mrs@.len() + 1,
            final(self).mrs@ == old(self).mrs@.push(final(self).mrs@.last()),
            ({
                let row = final(self).mrs@.last();
                row.id == id && row.mr_id == mr_id && row.project_id == project_id
                    && row.web_url == web_url && row.status == status
                    && row.has_conflicts == has_conflicts && row.fail_message@.len() == 0
                    && row.notify_on_end == notify_on_end
                    && row.merge_commit_sha == merge_commit_sha && row.auto_merge == auto_merge
                    && row.watch_pipline_after_merge == watch_pipline_after_merge
            }),
            final(self).piplines == old(self).piplines,
            final(self).tasks == old(self).tasks,
            final(self).steps == old(self).steps,
            final(self).next_pipline_id == old(self).next_pipline_id,
            final(self).next_task_id == old(self).next_task_id,
            final(self).next_step_id == old(self).next_step_id,
    {
        let id = self.next_mr_id;
        let row = WatchMr {
            id,
            mr_id,
            project_id,
            web_url,
            status,
            has_conflicts,
            fail_message: String::new(),
            notify_on_end,
            merge_commit_sha,
            auto_merge,
            watch_pipline_after_merge,
        };
        let ghost grow = row;
        self.mrs.push(row);
        self.next_mr_id = self.next_mr_id + 1;
        proof {
            assert(self.mrs@ == old(self).mrs@.push(grow));
            assert forall|i: int| 0 <= i < self.mrs@.len() implies 0 <= #[trigger] self.mrs@[i].id
                < self.next_mr_id by {
                if i < old(self).mrs@.len() {
                    assert(self.mrs@[i] == old(self).mrs@[i]);
                    assert(0 <= old(self).mrs@[i].id < old(self).next_mr_id);
                } else {
                    assert(self.mrs@[i] == grow);
                    assert(grow.id == id);
                }
            }
            assert forall|i: int, j: int| 0 <= i < j < self.mrs@.len() implies
                #[trigger] self.mrs@[i].id != #[trigger] self.mrs@[j].id by {
                assert(self.mrs@[i] == old(self).mrs@[i]);
                assert(0 <= old(self).mrs@[i].id < old(self).next_mr_id);
                if j < old(self).mrs@.len() {
                    assert(self.mrs@[j] == old(self).mrs@[j]);
                } else {
                    assert(self.mrs@[j] == grow);
                    assert(grow.id == id);
                }
            }
        }
        id
    }

    /// Registers a new chain task row and returns its local id.
    pub fn insert_task(
        &mut self,
        status: ChainmrStatus,
        source_branch: String,
        target_branch: String,
        watch_pipline_after_complete: bool,
    ) -> (id: i32)
        requires
            old(self).wf(),
            old(self).next_task_id < i32::MAX,
        ensures
            final(self).wf(),
            id == old(self).next_task_id,
            final(self).next_task_id == old(self).next_task_id + 1,
            final(self).tasks@.len() == old(self).tasks@.len() + 1,
            final(self).tasks@ == old(self).tasks@.push(final(self).tasks@.last()),
            ({
                let row = final(self).tasks@.last();
                row.id == id && row.status == status && row.source_branch == source_branch
                    && row.target_branch == target_branch && row.fail_message@.len() == 0
                    && row.watch_pipline_after_complete == watch_pipline_after_complete
                    && row.watch_pipline_id is None
            }),
            final(self).piplines == old(self).piplines,
            final(self).mrs == old(self).mrs,
            final(self).steps == old(self).steps,
            final(self).next_pipline_id == old(self).next_pipline_id,
            final(self).next_mr_id == old(self).next_mr_id,
            final(self).next_step_id == old(self).next_step_id,
    {
        let id = self.next_task_id;
        let row = ChainmrTask {
            id,
            status,
            source_branch,
            target_branch,
            fail_message: String::new(),
            watch_pipline_after_complete,
            watch_pipline_id: None,
        };
        let ghost grow = row;
        self.tasks.push(row);
        self.next_task_id = self.next_task_id + 1;
        proof {
            assert(self.tasks@ == old(self).tasks@.push(grow));
            assert forall|i: int| 0 <= i < self.tasks@.len() implies 0 <= #[trigger] self.tasks@[i].id
                < self.next_task_id by {
                if i < old(self).tasks@.len() {
                    assert(self.tasks@[i] == old(self).tasks@[i]);
                    assert(0 <= old(self).tasks@[i].id < old(self).next_task_id);
                } else {
                    assert(self.tasks@[i] == grow);
                    assert(grow.id == id);
                }
            }
            assert forall|i: int, j: int| 0 <= i < j < self.tasks@.len() implies
                #[trigger] self.tasks@[i].id != #[trigger] self.tasks@[j].id by {
                assert(self.tasks@[i] == old(self).tasks@[i]);
                assert(0 <= old(self).tasks@[i].id < old(self).next_task_id);
                if j < old(self).tasks@.len() {
                    assert(self.tasks@[j] == old(self).tasks@[j]);
                } else {
                    assert(self.tasks@[j] == grow);
                    assert(grow.id == id);
                }
            }
        }
        id
    }

    /// Registers a new chain step row and returns its local id.
    pub fn insert_step(
        &mut self,
        task_id: i32,
        step_number: i32,
        status: ChainmrStatus,
        source_branch: String,
        target_branch: String,
        watch_mr_id: Option<i32>,
    ) -> (id: i32)
        requires
            old(self).wf(),
            old(self).next_step_id < i32::MAX,
        ensures
            final(self).wf(),
            id == old(self).next_step_id,
            final(self).next_step_id == old(self).next_step_id + 1,
            final(self).steps@.len() == old(self).steps@.len() + 1,
            final(self).steps@ == old(self).steps@.push(final(self).steps@.last()),
            ({
                let row = final(self).steps@.last();
                row.id == id && row.task_id == task_id && row.step_number == step_number
                    && row.status == status && row.source_branch == source_branch
                    && row.target_branch == target_branch && row.watch_mr_id == watch_mr_id
                    && row.fail_message@.len() == 0
            }),
            final(self).piplines == old(self).piplines,
            final(self).mrs == old(self).mrs,
            final(self).tasks == old(self).tasks,
            final(self).next_pipline_id == old(self).next_pipline_id,
            final(self).next_mr_id == old(self).next_mr_id,
            final(self).next_task_id == old(self).next_task_id,
    {
        let id = self.next_step_id;
        let row = ChainmrStep {
            id,
            task_id,
            step_number,
            status,
            source_branch,
            target_branch,
            watch_mr_id,
            fail_message: String::new(),
        };
        let ghost grow = row;
        self.steps.push(row);
        self.next_step_id = self.next_step_id + 1;
        proof {
            assert(self.steps@ == old(self).steps@.push(grow));
            assert forall|i: int| 0 <= i < self.steps@.len() implies 0 <= #[trigger] self.steps@[i].id
                < self.next_step_id by {
                if i < old(self).steps@.len() {
                    assert(self.steps@[i] == old(self).steps@[i]);
                    assert(0 <= old(self).steps@[i].id < old(self).next_step_id);
                } else {
                    assert(self.steps@[i] == grow);
                    assert(grow.id == id);
                }
            }
            assert forall|i: int, j: int| 0 <= i < j < self.steps@.len() implies
                #[trigger] self.steps@[i].id != #[trigger] self.steps@[j].id by {
                assert(self.steps@[i] == old(self).steps@[i]);
                assert(0 <= old(self).steps@[i].id < old(self).next_step_id);
                if j < old(self).steps@.len() {
                    assert(self.steps@[j] == old(self).steps@[j]);
                } else {
                    assert(self.steps@[j] == grow);
                    assert(grow.id == id);
                }
            }
        }
        id
    }

    /// Writes the freshly fetched status back to the pipeline row with
    /// local id `id`; reports whether such a row exists.
    pub fn update_pipline_status(&mut self, id: i32, status: GlPiplineStatus) -> (found: bool)
        requires
            old(self).wf(),
        ensures
            final(self).wf(),
            found == (exists|i: int|
                0 <= i < old(self).piplines@.len() && #[trigger] old(self).piplines@[i].id == id),
            !found ==> *final(self) == *old(self),
            found ==> exists|i: int|
                0 <= i < old(self).piplines@.len() && #[trigger] old(self).piplines@[i].id == id
                    && final(self).piplines@ == old(self).piplines@.update(
                    i,
                    WatchPipiline { status, ..old(self).piplines@[i] },
                ),
            final(self).mrs == old(self).mrs,
            final(self).tasks == old(self).tasks,
            final(self).steps == old(self).steps,
            final(self).next_pipline_id == old(self).next_pipline_id,
            final(self).next_mr_id == old(self).next_mr_id,
            final(self).next_task_id == old(self).next_task_id,
            final(self).next_step_id == old(self).next_step_id,
    {
        match self.find_pipline(id) {
            None => false,
            Some(i) => {
                let mut row = self.piplines.remove(i);
                row.status = status;
                self.piplines.insert(i, row);
                proof {
                    assert(self.piplines@ =~= old(self).piplines@.update(
                        i as int,
                        WatchPipiline { status, ..old(self).piplines@[i as int] },
                    ));
                }
                true
            },
        }
    }

    /// Writes the freshly fetched state and conflict flag back to the
    /// merge-request row with local id `id`; reports whether such a row
    /// exists.
    pub fn update_mr_state(
        &mut self,
        id: i32,
        status: GlMergeRequestState,
        has_conflicts: bool,
    ) -> (found: bool)
        requires
            old(self).wf(),
        ensures
            final(self).wf(),
            found == (exists|i: int|
                0 <= i < old(self).mrs@.len() && #[trigger] old(self).mrs@[i].id == id),
            !found ==> *final(self) == *old(self),
            found ==> exists|i: int|
                0 <= i < old(self).mrs@.len() && #[trigger] old(self).mrs@[i].id == id
                    && final(self).mrs@ == old(self).mrs@.update(
                    i,
                    WatchMr { status, has_conflicts, ..old(self).mrs@[i] },
                ),
            final(self).piplines == old(self).piplines,
            final(self).tasks == old(self).tasks,
            final(self).steps == old(self).steps,
            final(self).next_pipline_id == old(self).next_pipline_id,
            final(self).next_mr_id == old(self).next_mr_id,
            final(self).next_task_id == old(self).next_task_id,
            final(self).next_step_id == old(self).next_step_id,
    {
        match self.find_mr(id) {
            None => false,
            Some(i) => {
                let mut row = self.mrs.remove(i);
                row.status = status;
                row.has_conflicts = has_conflicts;
                self.mrs.insert(i, row);
                proof {
                    assert(self.mrs@ =~= old(self).mrs@.update(
                        i as int,
                        WatchMr { status, has_conflicts, ..old(self).mrs@[i as int] },
                    ));
                }
                true
            },
        }
    }

    /// Records a completed merge on the row with local id `id`: state
    /// becomes `Merged` and the merge commit is kept.
    pub fn set_mr_merged(&mut self, id: i32, merge_commit_sha: Option<String>) -> (found: bool)
        requires
            old(self).wf(),
        ensures
            final(self).wf(),
            found == (exists|i: int|
                0 <= i < old(self).mrs@.len() && #[trigger] old(self).mrs@[i].id == id),
            !found ==> *final(self) == *old(self),
            found ==> exists|i: int|
                0 <= i < old(self).mrs@.len() && #[trigger] old(self).mrs@[i].id == id
                    && final(self).mrs@ == old(self).mrs@.update(
                    i,
                    WatchMr {
                        status: GlMergeRequestState::Merged,
                        merge_commit_sha,
                        ..old(self).mrs@[i]
                    },
                ),
            final(self).piplines == old(self).piplines,
            final(self).tasks == old(self).tasks,
            final(self).steps == old(self).steps,
            final(self).next_pipline_id == old(self).next_pipline_id,
            final(self).next_mr_id == old(self).next_mr_id,
            final(self).next_task_id == old(self).next_task_id,
            final(self).next_step_id == old(self).next_step_id,
    {
        match self.find_mr(id) {
            None => false,
            Some(i) => {
                let mut row = self.mrs.remove(i);
                row.status = GlMergeRequestState::Merged;
                row.merge_commit_sha = merge_commit_sha;
                self.mrs.insert(i, row);
                proof {
                    assert(self.mrs@ =~= old(self).mrs@.update(
                        i as int,
                        WatchMr {
                            status: GlMergeRequestState::Merged,
                            merge_commit_sha: final(self).mrs@[i as int].merge_commit_sha,
                            ..old(self).mrs@[i as int]
                        },
                    ));
                }
                true
            },
        }
    }

    /// Sets the status of the step row with local id `id`.
    pub fn update_step_status(&mut self, id: i32, status: ChainmrStatus) -> (found: bool)
        requires
            old(self).wf(),
        ensures
            final(self).wf(),
            found == (exists|i: int|
                0 <= i < old(self).steps@.len() && #[trigger] old(self).steps@[i].id == id),
            !found ==> *final(self) == *old(self),
            found ==> exists|i: int|
                0 <= i < old(self).steps@.len() && #[trigger] old(self).steps@[i].id == id
                    && final(self).steps@ == old(self).steps@.update(
                    i,
                    ChainmrStep { status, ..old(self).steps@[i] },
                ),
            final(self).piplines == old(self).piplines,
            final(self).mrs == old(self).mrs,
            final(self).tasks == old(self).tasks,
            final(self).next_pipline_id == old(self).next_pipline_id,
            final(self).next_mr_id == old(self).next_mr_id,
            final(self).next_task_id == old(self).next_task_id,
            final(self).next_step_id == old(self).next_step_id,
    {
        match self.find_step(id) {
            None => false,
            Some(i) => {
                let mut row = self.steps.remove(i);
                row.status = status;
                self.steps.insert(i, row);
                proof {
                    assert(self.steps@ =~= old(self).steps@.update(
                        i as int,
                        ChainmrStep { status, ..old(self).steps@[i as int] },
                    ));
                }
                true
            },
        }
    }

    /// Links the step row with local id `id` to a registered
    /// merge-request watch row.
    pub fn set_step_watch_mr(&mut self, id: i32, watch_mr_id: i32) -> (found: bool)
        requires
            old(self).wf(),
        ensures
            final(self).wf(),
            found == (exists|i: int|
                0 <= i < old(self).steps@.len() && #[trigger] old(self).steps@[i].id == id),
            !found ==> *final(self) == *old(self),
            found ==> exists|i: int|
                0 <= i < old(self).steps@.len() && #[trigger] old(self).steps@[i].id == id
                    && final(self).steps@ == old(self).steps@.update(
                    i,
                    ChainmrStep { watch_mr_id: Some(watch_mr_id), ..old(self).steps@[i] },
                ),
            final(self).piplines == old(self).piplines,
            final(self).mrs == old(self).mrs,
            final(self).tasks == old(self).tasks,
            final(self).next_pipline_id == old(self).next_pipline_id,
            final(self).next_mr_id == old(self).next_mr_id,
            final(self).next_task_id == old(self).next_task_id,
            final(self).next_step_id == old(self).next_step_id,
    {
        match self.find_step(id) {
            None => false,
            Some(i) => {
                let mut row = self.steps.remove(i);
                row.watch_mr_id = Some(watch_mr_id);
                self.steps.insert(i, row);
                proof {
                    assert(self.steps@ =~= old(self).steps@.update(
                        i as int,
                        ChainmrStep { watch_mr_id: Some(watch_mr_id), ..old(self).steps@[i as int] },
                    ));
                }
                true
            },
        }
    }

    /// Sets the status of the task row with local id `id`.
    pub fn update_task_status(&mut self, id: i32, status: ChainmrStatus) -> (found: bool)
        requires
            old(self).wf(),
        ensures
            final(self).wf(),
            found == (exists|i: int|
                0 <= i < old(self).tasks@.len() && #[trigger] old(self).tasks@[i].id == id),
            !found ==> *final(self) == *old(self),
            found ==> exists|i: int|
                0 <= i < old(self).tasks@.len() && #[trigger] old(self).tasks@[i].id == id
                    && final(self).tasks@ == old(self).tasks@.update(
                    i,
                    ChainmrTask { status, ..old(self).tasks@[i] },
                ),
            final(self).piplines == old(self).piplines,
            final(self).mrs == old(self).mrs,
            final(self).steps == old(self).steps,
            final(self).next_pipline_id == old(self).next_pipline_id,
            final(self).next_mr_id == old(self).next_mr_id,
            final(self).next_task_id == old(self).next_task_id,
            final(self).next_step_id == old(self).next_step_id,
    {
        match self.find_task(id) {
            None => false,
            Some(i) => {
                let mut row = self.tasks.remove(i);
                row.status = status;
                self.tasks.insert(i, row);
                proof {
                    assert(self.tasks@ =~= old(self).tasks@.update(
                        i as int,
                        ChainmrTask { status, ..old(self).tasks@[i as int] },
                    ));
                }
                true
            },
        }
    }

    /// Marks the step `step_id` of task `task_id` failed, and with it,
    /// defensively, every step of the task still `Created`, all in one
    /// write.
    pub fn fail_task_steps(&mut self, task_id: i32, step_id: i32)
        requires
            old(self).wf(),
        ensures
            final(self).wf(),
            final(self).steps@.len() == old(self).steps@.len(),
            forall|k: int|
                0 <= k < old(self).steps@.len() ==> final(self).steps@[k] == (
                if old(self).steps@[k].task_id == task_id && (#[trigger] old(self).steps@[k].id
                    == step_id || old(self).steps@[k].status is Created) {
                    ChainmrStep { status: ChainmrStatus::Failed, ..old(self).steps@[k] }
                } else {
                    old(self).steps@[k]
                }),
            final(self).piplines == old(self).piplines,
            final(self).mrs == old(self).mrs,
            final(self).tasks == old(self).tasks,
            final(self).next_pipline_id == old(self).next_pipline_id,
            final(self).next_mr_id == old(self).next_mr_id,
            final(self).next_task_id == old(self).next_task_id,
            final(self).next_step_id == old(self).next_step_id,
    {
        let mut i: usize = 0;
        while i < self.steps.len()
            invariant
                old(self).wf(),
                0 <= i <= self.steps@.len(),
                self.steps@.len() == old(self).steps@.len(),
                forall|k: int|
                    i <= k < old(self).steps@.len() ==> #[trigger] self.steps@[k] == old(
                        self,
                    ).steps@[k],
                forall|k: int|
                    0 <= k < i ==> #[trigger] self.steps@[k] == (
                    if old(self).steps@[k].task_id == task_id && (old(self).steps@[k].id == step_id
                        || old(self).steps@[k].status is Created) {
                        ChainmrStep { status: ChainmrStatus::Failed, ..old(self).steps@[k] }
                    } else {
                        old(self).steps@[k]
                    }),
                self.piplines == old(self).piplines,
                self.mrs == old(self).mrs,
                self.tasks == old(self).tasks,
                self.next_pipline_id == old(self).next_pipline_id,
                self.next_mr_id == old(self).next_mr_id,
                self.next_task_id == old(self).next_task_id,
                self.next_step_id == old(self).next_step_id,
            decreases self.steps@.len() - i,
        {
            let hit = self.steps[i].task_id == task_id && (self.steps[i].id == step_id || match self
                .steps[i].status {
                ChainmrStatus::Created => true,
                _ => false,
            });
            if hit {
                let mut row = self.steps.remove(i);
                row.status = ChainmrStatus::Failed;
                self.steps.insert(i, row);
            }
            i += 1;
        }
        proof {
            assert forall|i: int, j: int| 0 <= i < j < self.steps@.len() implies
                #[trigger] self.steps@[i].id != #[trigger] self.steps@[j].id by {
                assert(old(self).steps@[i].id != old(self).steps@[j].id);
            }
        }
    }
}

} // verus!
