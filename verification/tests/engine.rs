use awork::gitlab::{GlMergeRequest, GlPipeline};
use awork::notify::Notifier;
use awork::status::{ChainmrStatus, GlMergeRequestState, GlPiplineStatus};
use awork::store::Store;
use awork::watch_merged_mrs::{merged_mr_candidates, watch_merged_mrs};
use awork::watch_mr::{apply_merge_result, get_watch_mrs, watch_mr_row, watch_mrs, WatchMRResult};
use awork::watch_pipline::{pipline_candidates, watch_pipline_row, watch_piplines, WatchPipilineResult};
use awork::watch_task::{apply_next_step_mr, load_steps, watch_chainmr};

fn pipeline(id: u64, status: GlPiplineStatus, sha: &str) -> GlPipeline {
    GlPipeline {
        id,
        iid: id,
        status,
        web_url: format!("https://gl/pipelines/{}", id),
        sha: sha.to_string(),
    }
}

fn merge_request(
    id: u64,
    state: GlMergeRequestState,
    has_conflicts: bool,
    head_pipeline: Option<GlPipeline>,
    merge_commit_sha: Option<&str>,
) -> GlMergeRequest {
    GlMergeRequest {
        id,
        iid: id,
        title: format!("MR {}", id),
        web_url: format!("https://gl/mrs/{}", id),
        assignees: vec![],
        reviewers: vec![],
        target_branch: "main".to_string(),
        source_branch: "dev".to_string(),
        state,
        has_conflicts,
        head_pipeline,
        merge_commit_sha: merge_commit_sha.map(|s| s.to_string()),
    }
}

fn mr_candidate(id: i32, mr_id: i32, auto_merge: bool, notify_on_end: bool) -> WatchMRResult {
    WatchMRResult {
        id,
        mr_id,
        project_id: 7,
        has_conflicts: false,
        notify_on_end,
        auto_merge,
        watch_pipeline_after_merge: false,
        chainmr_task: None,
    }
}

#[test]
fn pipeline_watcher_reports_failure() {
    // A watched pipeline in status running; the remote now reports failed.
    let mut store = Store::new();
    for _ in 0..4 {
        store.insert_pipline(1, 7, String::new(), GlPiplineStatus::Success, None, false);
    }
    let id = store.insert_pipline(77, 7, String::new(), GlPiplineStatus::Running, None, true);
    assert_eq!(id, 5);

    let cands = pipline_candidates(&store);
    assert_eq!(cands.len(), 1);
    assert_eq!(cands[0].id, 5);
    assert_eq!(cands[0].gl_pipline_id, 77);

    let mut notifier = Notifier::new();
    let fetch = Ok(pipeline(77, GlPiplineStatus::Failed, "abc"));
    watch_pipline_row(&mut store, &cands[0], &fetch, &mut notifier);

    assert!(matches!(store.piplines[4].status, GlPiplineStatus::Failed));
    assert_eq!(notifier.notifications.len(), 1);
    assert_eq!(notifier.notifications[0].summary, "Ошибка пайплайна");
    assert_eq!(
        notifier.notifications[0].body.as_deref(),
        Some("Пайплайн 77 упал или был отменен")
    );
    assert_eq!(
        notifier.notifications[0].action[0],
        ("https://gl/pipelines/77".to_string(), "Открыть пайплайн".to_string())
    );
}

#[test]
fn pipeline_watcher_silent_without_notify_flag() {
    let mut store = Store::new();
    let id = store.insert_pipline(9, 7, String::new(), GlPiplineStatus::Running, None, false);
    let cand = WatchPipilineResult { id, gl_pipline_id: 9, project_id: 7, notify_on_end: false };
    let mut notifier = Notifier::new();
    watch_pipline_row(&mut store, &cand, &Ok(pipeline(9, GlPiplineStatus::Failed, "s")), &mut notifier);
    assert!(matches!(store.piplines[0].status, GlPiplineStatus::Failed));
    assert_eq!(notifier.notifications.len(), 0);
}

#[test]
fn pipeline_watcher_skips_failed_fetch() {
    let mut store = Store::new();
    let id = store.insert_pipline(9, 7, String::new(), GlPiplineStatus::Running, None, true);
    let cand = WatchPipilineResult { id, gl_pipline_id: 9, project_id: 7, notify_on_end: true };
    let mut notifier = Notifier::new();
    let fetches = vec![(cand, Err("connection reset".to_string()))];
    watch_piplines(&mut store, &fetches, &mut notifier);
    assert!(matches!(store.piplines[0].status, GlPiplineStatus::Running));
    assert_eq!(notifier.notifications.len(), 0);
}

#[test]
fn auto_merge_end_to_end() {
    // MR 42 in project 7, auto-merge and notify set, remote opened with a
    // successful head pipeline: the engine merges, persists the merged
    // state with the returned commit, and raises exactly one notification.
    let mut store = Store::new();
    let id = store.insert_mr(
        42,
        7,
        "https://gl/mrs/42".to_string(),
        GlMergeRequestState::Opened,
        false,
        true,
        None,
        true,
        false,
    );
    let cands = get_watch_mrs(&store);
    assert_eq!(cands.len(), 1);
    assert_eq!(cands[0].id, id);
    assert_eq!(cands[0].mr_id, 42);
    assert!(cands[0].chainmr_task.is_none());

    let fetched = merge_request(
        42,
        GlMergeRequestState::Opened,
        false,
        Some(pipeline(3, GlPiplineStatus::Success, "h")),
        None,
    );
    let mut notifier = Notifier::new();
    let fetches = vec![(cands.into_iter().next().unwrap(), Ok(fetched))];
    let attempts = watch_mrs(&mut store, &fetches, &mut notifier);
    assert_eq!(attempts, vec![0]);
    assert_eq!(notifier.notifications.len(), 0);

    let (cand, fetch) = &fetches[0];
    let merged = merge_request(42, GlMergeRequestState::Merged, false, None, Some("deadbeef"));
    apply_merge_result(&mut store, cand, fetch.as_ref().unwrap(), &Ok(merged), &mut notifier);

    assert!(matches!(store.mrs[0].status, GlMergeRequestState::Merged));
    assert_eq!(store.mrs[0].merge_commit_sha.as_deref(), Some("deadbeef"));
    assert_eq!(notifier.notifications.len(), 1);
    assert_eq!(notifier.notifications[0].summary, "MR !42");
    assert_eq!(notifier.notifications[0].body.as_deref(), Some("MR 42 смерджен!"));
}

#[test]
fn merge_error_keeps_row_open() {
    let mut store = Store::new();
    store.insert_mr(
        42,
        7,
        String::new(),
        GlMergeRequestState::Opened,
        false,
        true,
        None,
        true,
        false,
    );
    let cand = mr_candidate(1, 42, true, true);
    let fetched = merge_request(42, GlMergeRequestState::Opened, false, None, None);
    let mut notifier = Notifier::new();
    apply_merge_result(
        &mut store,
        &cand,
        &fetched,
        &Err("недостаточно прав".to_string()),
        &mut notifier,
    );
    assert!(matches!(store.mrs[0].status, GlMergeRequestState::Opened));
    assert_eq!(notifier.notifications.len(), 1);
    assert_eq!(
        notifier.notifications[0].body.as_deref(),
        Some("Ошибка мерджа MR: недостаточно прав")
    );
}

#[test]
fn new_conflict_raises_single_notification() {
    // Conflicts newly appeared: one conflict notification, nothing else,
    // and no merge attempt even though everything else allows one.
    let mut store = Store::new();
    store.insert_mr(
        42,
        7,
        String::new(),
        GlMergeRequestState::Opened,
        false,
        true,
        None,
        true,
        false,
    );
    let cand = mr_candidate(1, 42, true, true);
    let fetched = merge_request(
        42,
        GlMergeRequestState::Opened,
        true,
        Some(pipeline(3, GlPiplineStatus::Success, "h")),
        None,
    );
    let mut notifier = Notifier::new();
    let attempt = watch_mr_row(&mut store, &cand, &Ok(fetched), &mut notifier);
    assert!(!attempt);
    assert_eq!(notifier.notifications.len(), 1);
    assert_eq!(
        notifier.notifications[0].body.as_deref(),
        Some("Обнаружен конфликт. Необходим ручной мердж")
    );
    assert!(store.mrs[0].has_conflicts);
}

#[test]
fn merge_gates_hold_one_by_one() {
    let base_head = || Some(pipeline(3, GlPiplineStatus::Success, "h"));
    let mut checks: Vec<(GlMergeRequest, WatchMRResult, bool, usize)> = Vec::new();
    // All preconditions met: merge attempted, no notification.
    checks.push((
        merge_request(42, GlMergeRequestState::Opened, false, base_head(), None),
        mr_candidate(1, 42, true, true),
        true,
        0,
    ));
    // State closed: no merge; the closed notification (notify_on_end set).
    checks.push((
        merge_request(42, GlMergeRequestState::Closed, false, base_head(), None),
        mr_candidate(1, 42, true, true),
        false,
        1,
    ));
    // State merged remotely: no merge, silent.
    checks.push((
        merge_request(42, GlMergeRequestState::Merged, false, base_head(), None),
        mr_candidate(1, 42, true, true),
        false,
        0,
    ));
    // Standing conflicts: no merge, silent.
    checks.push((
        merge_request(42, GlMergeRequestState::Opened, true, base_head(), None),
        WatchMRResult { has_conflicts: true, ..mr_candidate(1, 42, true, true) },
        false,
        0,
    ));
    // Head pipeline still running: no merge, silent.
    checks.push((
        merge_request(
            42,
            GlMergeRequestState::Opened,
            false,
            Some(pipeline(3, GlPiplineStatus::Running, "h")),
            None,
        ),
        mr_candidate(1, 42, true, true),
        false,
        0,
    ));
    // Head pipeline failed: no merge, one notification.
    checks.push((
        merge_request(
            42,
            GlMergeRequestState::Opened,
            false,
            Some(pipeline(3, GlPiplineStatus::Failed, "h")),
            None,
        ),
        mr_candidate(1, 42, true, true),
        false,
        1,
    ));
    // No head pipeline at all: merge attempted.
    checks.push((
        merge_request(42, GlMergeRequestState::Opened, false, None, None),
        mr_candidate(1, 42, true, true),
        true,
        0,
    ));
    // Auto-merge off: no merge, the ready notification.
    checks.push((
        merge_request(42, GlMergeRequestState::Opened, false, base_head(), None),
        mr_candidate(1, 42, false, true),
        false,
        1,
    ));

    for (fetched, cand, want_attempt, want_notes) in checks {
        let mut store = Store::new();
        store.insert_mr(
            42,
            7,
            String::new(),
            GlMergeRequestState::Opened,
            cand.has_conflicts,
            cand.notify_on_end,
            None,
            cand.auto_merge,
            false,
        );
        let mut notifier = Notifier::new();
        let attempt = watch_mr_row(&mut store, &cand, &Ok(fetched), &mut notifier);
        assert_eq!(attempt, want_attempt);
        assert_eq!(notifier.notifications.len(), want_notes);
    }
}

#[test]
fn ready_to_merge_notification_text() {
    let mut store = Store::new();
    store.insert_mr(
        42,
        7,
        String::new(),
        GlMergeRequestState::Opened,
        false,
        false,
        None,
        false,
        false,
    );
    let cand = mr_candidate(1, 42, false, false);
    let fetched = merge_request(42, GlMergeRequestState::Opened, false, None, None);
    let mut notifier = Notifier::new();
    let attempt = watch_mr_row(&mut store, &cand, &Ok(fetched), &mut notifier);
    assert!(!attempt);
    assert_eq!(notifier.notifications.len(), 1);
    assert_eq!(notifier.notifications[0].summary, "MR !42");
    assert_eq!(notifier.notifications[0].body.as_deref(), Some("MR 42 готов к мерджу!"));
}

#[test]
fn detector_tracks_each_commit_once() {
    // A merged watch row asking for its post-merge pipeline: the detector
    // registers one pipeline watch, and a second run adds nothing.
    let mut store = Store::new();
    store.insert_mr(
        42,
        7,
        String::new(),
        GlMergeRequestState::Merged,
        false,
        false,
        Some("deadbeef".to_string()),
        true,
        true,
    );
    let cands = merged_mr_candidates(&store);
    assert_eq!(cands.len(), 1);
    assert_eq!(cands[0].merge_commit_sha, "deadbeef");
    assert_eq!(cands[0].project_id, 7);

    // The pipeline has not started yet: nothing happens.
    let pending = vec![(cands.into_iter().next().unwrap(), Ok(None))];
    watch_merged_mrs(&mut store, &pending);
    assert_eq!(store.piplines.len(), 0);

    // Now the remote reports one.
    let cands = merged_mr_candidates(&store);
    let found = vec![
        (
            cands.into_iter().next().unwrap(),
            Ok(Some(pipeline(88, GlPiplineStatus::Running, "deadbeef"))),
        ),
    ];
    watch_merged_mrs(&mut store, &found);
    assert_eq!(store.piplines.len(), 1);
    assert_eq!(store.piplines[0].gl_pipline_id, 88);
    assert_eq!(store.piplines[0].sha.as_deref(), Some("deadbeef"));
    assert!(store.piplines[0].notify_on_end);

    // Once tracked, the commit is no candidate any more...
    assert_eq!(merged_mr_candidates(&store).len(), 0);
    // ...and even replaying the old lookup result adds no duplicate.
    watch_merged_mrs(&mut store, &found);
    assert_eq!(store.piplines.len(), 1);
}

#[test]
fn single_step_chain_completes() {
    let mut store = Store::new();
    let mr_local = store.insert_mr(
        10,
        7,
        String::new(),
        GlMergeRequestState::Merged,
        false,
        false,
        None,
        true,
        false,
    );
    let task = store.insert_task(
        ChainmrStatus::Pending,
        "dev".to_string(),
        "main".to_string(),
        false,
    );
    let step = store.insert_step(
        task,
        1,
        ChainmrStatus::Pending,
        "dev".to_string(),
        "main".to_string(),
        Some(mr_local),
    );

    let cands = load_steps(&store);
    assert_eq!(cands.len(), 1);
    assert_eq!(cands[0].steps_count, 1);
    assert!(matches!(cands[0].mr_status, Some(GlMergeRequestState::Merged)));

    let mut notifier = Notifier::new();
    let advances = watch_chainmr(&mut store, &cands, &mut notifier);
    assert!(advances.is_empty());
    assert!(matches!(store.tasks[0].status, ChainmrStatus::Success));
    assert!(matches!(store.steps[0].status, ChainmrStatus::Success));
    assert_eq!(notifier.notifications.len(), 0);
    assert_eq!(step, store.steps[0].id);
}

#[test]
fn single_step_chain_waits_for_pipeline_when_asked() {
    let mut store = Store::new();
    let mr_local = store.insert_mr(
        10,
        7,
        String::new(),
        GlMergeRequestState::Merged,
        false,
        false,
        None,
        true,
        false,
    );
    let task = store.insert_task(
        ChainmrStatus::Pending,
        "dev".to_string(),
        "main".to_string(),
        true,
    );
    store.insert_step(
        task,
        1,
        ChainmrStatus::Pending,
        "dev".to_string(),
        "main".to_string(),
        Some(mr_local),
    );
    let cands = load_steps(&store);
    let mut notifier = Notifier::new();
    watch_chainmr(&mut store, &cands, &mut notifier);
    assert!(matches!(store.tasks[0].status, ChainmrStatus::WaitPipeline));
}

#[test]
fn three_step_chain_fails_at_second_step() {
    let mut store = Store::new();
    let merged = store.insert_mr(
        11,
        7,
        String::new(),
        GlMergeRequestState::Merged,
        false,
        false,
        None,
        true,
        false,
    );
    let closed = store.insert_mr(
        12,
        7,
        "https://gl/mrs/12".to_string(),
        GlMergeRequestState::Closed,
        false,
        false,
        None,
        true,
        false,
    );
    let task = store.insert_task(
        ChainmrStatus::Pending,
        "dev".to_string(),
        "main".to_string(),
        false,
    );
    store.insert_step(
        task,
        1,
        ChainmrStatus::Success,
        "dev".to_string(),
        "stage".to_string(),
        Some(merged),
    );
    store.insert_step(
        task,
        2,
        ChainmrStatus::Pending,
        "stage".to_string(),
        "rc".to_string(),
        Some(closed),
    );
    store.insert_step(
        task,
        3,
        ChainmrStatus::Created,
        "rc".to_string(),
        "main".to_string(),
        None,
    );

    let cands = load_steps(&store);
    assert_eq!(cands.len(), 3);
    let broken: Vec<_> = cands
        .into_iter()
        .filter(|c| matches!(c.mr_status, Some(GlMergeRequestState::Closed)))
        .collect();
    assert_eq!(broken.len(), 1);

    let mut notifier = Notifier::new();
    let advances = watch_chainmr(&mut store, &broken, &mut notifier);
    assert!(advances.is_empty());

    assert!(matches!(store.tasks[0].status, ChainmrStatus::Failed));
    assert!(matches!(store.steps[0].status, ChainmrStatus::Success));
    assert!(matches!(store.steps[1].status, ChainmrStatus::Failed));
    assert!(matches!(store.steps[2].status, ChainmrStatus::Failed));
    assert_eq!(notifier.notifications.len(), 1);
    assert_eq!(notifier.notifications[0].summary, "#1: dev -> main");
    assert_eq!(
        notifier.notifications[0].body.as_deref(),
        Some("Ошибка ChainMR: Текущий MR закрылся")
    );
}

#[test]
fn mid_chain_merge_asks_for_next_step() {
    let mut store = Store::new();
    let merged = store.insert_mr(
        11,
        7,
        String::new(),
        GlMergeRequestState::Merged,
        false,
        false,
        None,
        true,
        false,
    );
    let task = store.insert_task(
        ChainmrStatus::Pending,
        "dev".to_string(),
        "main".to_string(),
        false,
    );
    let step1 = store.insert_step(
        task,
        1,
        ChainmrStatus::Pending,
        "dev".to_string(),
        "stage".to_string(),
        Some(merged),
    );
    let step2 = store.insert_step(
        task,
        2,
        ChainmrStatus::Created,
        "stage".to_string(),
        "main".to_string(),
        None,
    );

    let cands = load_steps(&store);
    let mut notifier = Notifier::new();
    let advances = watch_chainmr(&mut store, &cands, &mut notifier);
    assert_eq!(advances.len(), 1);
    assert_eq!(advances[0].prior_step_id, step1);
    assert_eq!(advances[0].next_step_id, step2);
    assert_eq!(advances[0].source_branch, "stage");
    assert_eq!(advances[0].target_branch, "main");
    // The task still waits; the prior step is only done once the next
    // step's merge request exists.
    assert!(matches!(store.tasks[0].status, ChainmrStatus::Pending));
    assert!(matches!(store.steps[0].status, ChainmrStatus::Pending));

    // Creating the merge request failed: retried next cycle.
    let before = store.mrs.len();
    let r = apply_next_step_mr(&mut store, &advances[0], 7, &Err("api down".to_string()));
    assert!(r.is_none());
    assert_eq!(store.mrs.len(), before);

    // Creating it worked: registered under auto-merge, linked, prior done.
    let created = merge_request(99, GlMergeRequestState::Opened, false, None, None);
    let new_id = apply_next_step_mr(&mut store, &advances[0], 7, &Ok(created)).unwrap();
    let row = store.mrs.iter().find(|m| m.id == new_id).unwrap();
    assert_eq!(row.mr_id, 99);
    assert!(row.auto_merge);
    assert!(!row.notify_on_end);
    assert!(matches!(store.steps[0].status, ChainmrStatus::Success));
    assert_eq!(store.steps[1].watch_mr_id, Some(new_id));

    // The next cycle: the following step is materialized now, so the
    // advance is not asked for again and no second merge request appears.
    let cands = load_steps(&store);
    let mrs_before = store.mrs.len();
    let advances = watch_chainmr(&mut store, &cands, &mut notifier);
    assert!(advances.is_empty());
    assert_eq!(store.mrs.len(), mrs_before);
    assert!(matches!(store.tasks[0].status, ChainmrStatus::Pending));
    assert!(matches!(store.steps[0].status, ChainmrStatus::Success));
}

#[test]
fn failed_task_is_not_revived_in_one_pass() {
    // A store holding, for one task, both a step whose merge request
    // closed and a final step whose merge request merged: the failure
    // wins; the completion transition fires only on a still-pending task.
    let mut store = Store::new();
    let closed = store.insert_mr(
        11,
        7,
        "https://gl/mrs/11".to_string(),
        GlMergeRequestState::Closed,
        false,
        false,
        None,
        true,
        false,
    );
    let merged = store.insert_mr(
        12,
        7,
        String::new(),
        GlMergeRequestState::Merged,
        false,
        false,
        None,
        true,
        false,
    );
    let task = store.insert_task(
        ChainmrStatus::Pending,
        "dev".to_string(),
        "main".to_string(),
        false,
    );
    store.insert_step(
        task,
        1,
        ChainmrStatus::Pending,
        "dev".to_string(),
        "stage".to_string(),
        Some(closed),
    );
    store.insert_step(
        task,
        2,
        ChainmrStatus::Pending,
        "stage".to_string(),
        "main".to_string(),
        Some(merged),
    );

    let cands = load_steps(&store);
    let mut notifier = Notifier::new();
    let advances = watch_chainmr(&mut store, &cands, &mut notifier);
    assert!(advances.is_empty());
    assert!(matches!(store.tasks[0].status, ChainmrStatus::Failed));
    assert!(matches!(store.steps[0].status, ChainmrStatus::Failed));
    assert_eq!(notifier.notifications.len(), 1);
}

#[test]
fn closed_without_notify_is_silent() {
    let mut store = Store::new();
    store.insert_mr(
        42,
        7,
        String::new(),
        GlMergeRequestState::Opened,
        false,
        false,
        None,
        true,
        false,
    );
    let cand = mr_candidate(1, 42, true, false);
    let fetched = merge_request(42, GlMergeRequestState::Closed, false, None, None);
    let mut notifier = Notifier::new();
    let attempt = watch_mr_row(&mut store, &cand, &Ok(fetched), &mut notifier);
    assert!(!attempt);
    assert_eq!(notifier.notifications.len(), 0);
    assert!(matches!(store.mrs[0].status, GlMergeRequestState::Closed));
}

#[test]
fn fetch_error_leaves_mr_row_untouched() {
    let mut store = Store::new();
    store.insert_mr(
        42,
        7,
        String::new(),
        GlMergeRequestState::Opened,
        false,
        true,
        None,
        true,
        false,
    );
    let cand = mr_candidate(1, 42, true, true);
    let mut notifier = Notifier::new();
    let attempt = watch_mr_row(&mut store, &cand, &Err("down".to_string()), &mut notifier);
    assert!(!attempt);
    assert_eq!(notifier.notifications.len(), 0);
    assert!(matches!(store.mrs[0].status, GlMergeRequestState::Opened));
}

#[test]
fn pipeline_cycle_handles_mixed_rows() {
    let mut store = Store::new();
    let a = store.insert_pipline(1, 7, String::new(), GlPiplineStatus::Running, None, true);
    let b = store.insert_pipline(2, 7, String::new(), GlPiplineStatus::Pending, None, true);
    let cands = pipline_candidates(&store);
    assert_eq!(cands.len(), 2);
    let fetches = vec![
        (cands[0], Ok(pipeline(1, GlPiplineStatus::Success, "x"))),
        (cands[1], Err("down".to_string())),
    ];
    let mut notifier = Notifier::new();
    watch_piplines(&mut store, &fetches, &mut notifier);
    assert!(matches!(store.piplines[0].status, GlPiplineStatus::Success));
    assert!(matches!(store.piplines[1].status, GlPiplineStatus::Pending));
    assert_eq!(notifier.notifications.len(), 1);
    assert_eq!(notifier.notifications[0].summary, "Пайплайн завершился!");
    assert_eq!(
        notifier.notifications[0].body.as_deref(),
        Some("Пайплайн 1 успешно выполнился!")
    );
    assert_eq!(a, 1);
    assert_eq!(b, 2);
}

#[test]
fn unknown_status_is_transient() {
    // A status text the service reports that the library does not
    // recognise: the row is updated, nothing is announced, and the row
    // stays a candidate for the next cycle.
    let mut store = Store::new();
    let id = store.insert_pipline(9, 7, String::new(), GlPiplineStatus::Running, None, true);
    let cand = WatchPipilineResult { id, gl_pipline_id: 9, project_id: 7, notify_on_end: true };
    let mut notifier = Notifier::new();
    watch_pipline_row(
        &mut store,
        &cand,
        &Ok(pipeline(9, GlPiplineStatus::Unknown, "s")),
        &mut notifier,
    );
    assert!(matches!(store.piplines[0].status, GlPiplineStatus::Unknown));
    assert_eq!(notifier.notifications.len(), 0);
    assert_eq!(pipline_candidates(&store).len(), 1);
}

#[test]
fn candidate_queries_filter_terminal_rows() {
    let mut store = Store::new();
    store.insert_pipline(1, 7, String::new(), GlPiplineStatus::Success, None, false);
    store.insert_pipline(2, 7, String::new(), GlPiplineStatus::Canceled, None, false);
    store.insert_pipline(3, 7, String::new(), GlPiplineStatus::Pending, None, false);
    assert_eq!(pipline_candidates(&store).len(), 1);

    store.insert_mr(
        1,
        7,
        String::new(),
        GlMergeRequestState::Merged,
        false,
        false,
        None,
        false,
        false,
    );
    store.insert_mr(
        2,
        7,
        String::new(),
        GlMergeRequestState::Opened,
        false,
        false,
        None,
        false,
        false,
    );
    let cands = get_watch_mrs(&store);
    assert_eq!(cands.len(), 1);
    assert_eq!(cands[0].mr_id, 2);

    assert!(!store.update_pipline_status(999, GlPiplineStatus::Failed));
}
