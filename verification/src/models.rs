//! The four persisted entity collections' row types: watched pipelines,
//! watched merge requests, chain tasks and chain steps.

use vstd::prelude::*;
use crate::status::{ChainmrStatus, GlMergeRequestState, GlPiplineStatus};

verus! {

/// A locally persisted watch record for one remote pipeline.
#[derive(Debug)]
pub struct WatchPipiline {
    pub id: i32,
    pub gl_pipline_id: i32,
    pub project_id: i32,
    pub web_url: String,
    pub status: GlPiplineStatus,
    pub fail_message: String,
    pub sha: Option<String>,
    pub notify_on_end: bool,
}

/// The mathematical content of a watched pipeline row.
pub struct WatchPipilineV {
    pub id: int,
    pub gl_pipline_id: int,
    pub project_id: int,
    pub web_url: Seq<char>,
    pub status: GlPiplineStatus,
    pub fail_message: Seq<char>,
    pub sha: Option<Seq<char>>,
    pub notify_on_end: bool,
}

impl View for WatchPipiline {
    type V = WatchPipilineV;

    open spec fn view(&self) -> WatchPipilineV {
        WatchPipilineV {
            id: self.id as int,
            gl_pipline_id: self.gl_pipline_id as int,
            project_id: self.project_id as int,
            web_url: self.web_url@,
            status: self.status,
            fail_message: self.fail_message@,
            sha: self.sha.deep_view(),
            notify_on_end: self.notify_on_end,
        }
    }
}

impl DeepView for WatchPipiline {
    type V = WatchPipilineV;

    open spec fn deep_view(&self) -> WatchPipilineV {
        self.view()
    }
}

/// The fields of a watched pipeline that a reconciliation pass reads.
#[derive(Debug, Clone, Copy, PartialEq, Eq, Structural)]
pub struct WatchPipilineShort {
    pub id: i32,
    pub gl_pipline_id: i32,
    pub project_id: i32,
    pub notify_on_end: bool,
}

/// A locally persisted watch record for one remote merge request.
#[derive(Debug)]
pub struct WatchMr {
    pub id: i32,
    pub mr_id: i32,
    pub project_id: i32,
    pub web_url: String,
    pub status: GlMergeRequestState,
    pub has_conflicts: bool,
    pub fail_message: String,
    pub notify_on_end: bool,
    pub merge_commit_sha: Option<String>,
    pub auto_merge: bool,
    pub watch_pipline_after_merge: bool,
}

/// One multi-step branch-promotion plan.
#[derive(Debug)]
pub struct ChainmrTask {
    pub id: i32,
    pub status: ChainmrStatus,
    pub source_branch: String,
    pub target_branch: String,
    pub fail_message: String,
    pub watch_pipline_after_complete: bool,
    pub watch_pipline_id: Option<i32>,
}

/// One merge within a chain task's ordered sequence of steps.
#[derive(Debug)]
pub struct ChainmrStep {
    pub id: i32,
    pub task_id: i32,
    pub step_number: i32,
    pub status: ChainmrStatus,
    pub source_branch: String,
    pub target_branch: String,
    pub watch_mr_id: Option<i32>,
    pub fail_message: String,
}

} // verus!
