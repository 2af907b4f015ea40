//! A merge-request automation engine: locally persisted "watch" records are
//! reconciled against a remote hosting service's live state, statuses are
//! updated, conditional auto-merges performed, multi-step branch-promotion
//! chains advanced, and notifications raised on terminal outcomes.

pub mod config;
pub mod gitlab;
pub mod models;
pub mod remote_url;
pub mod notify;
pub mod printer;
pub mod status;
pub mod store;
pub mod strutil;
pub mod watch_merged_mrs;
pub mod watch_mr;
pub mod watch_pipline;
pub mod watch_task;

use vstd::prelude::*;

verus! {

} // verus!
