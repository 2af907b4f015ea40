use awork::config::{get_app_config_file_path, get_project_config_file_path, update_host_command, update_token_command, AppConfig};
use awork::gitlab::{target_branch_for_epic, EpicApi, GitlabManager, GlEpic};
use awork::printer::Printer;
use awork::remote_url::project_remote_info;
use awork::status::{ChainmrStatus, GlMergeRequestState, GlPiplineStatus};
use awork::strutil::{i32_to_string, i64_to_string, parse_u64, str_contains, str_eq, task_iid_from_branch, u64_to_string};

#[test]
fn pipline_status_text_round_trip() {
    let all = [
        GlPiplineStatus::Created,
        GlPiplineStatus::WaitingForResource,
        GlPiplineStatus::Preparing,
        GlPiplineStatus::Pending,
        GlPiplineStatus::Running,
        GlPiplineStatus::Success,
        GlPiplineStatus::Failed,
        GlPiplineStatus::Canceled,
        GlPiplineStatus::Skipped,
        GlPiplineStatus::Manual,
        GlPiplineStatus::Scheduled,
        GlPiplineStatus::Unknown,
    ];
    for s in all {
        assert_eq!(GlPiplineStatus::from_text(&s.to_text()), s);
    }
    assert_eq!(GlPiplineStatus::Canceled.to_text(), "canceled");
    assert_eq!(
        GlPiplineStatus::from_text(&"canceled".to_string()),
        GlPiplineStatus::Canceled
    );
    assert_eq!(
        GlPiplineStatus::from_text(&"something else".to_string()),
        GlPiplineStatus::Unknown
    );
}

#[test]
fn mr_state_text_round_trip() {
    let all = [
        GlMergeRequestState::Closed,
        GlMergeRequestState::Opened,
        GlMergeRequestState::Locked,
        GlMergeRequestState::Merged,
        GlMergeRequestState::Unknown,
    ];
    for s in all {
        assert_eq!(GlMergeRequestState::from_text(&s.to_text()), s);
    }
    assert_eq!(
        GlMergeRequestState::from_text(&"gone".to_string()),
        GlMergeRequestState::Unknown
    );
}

#[test]
fn chain_status_text_round_trip() {
    let all = [
        ChainmrStatus::Created,
        ChainmrStatus::Pending,
        ChainmrStatus::Success,
        ChainmrStatus::Failed,
        ChainmrStatus::WaitPipeline,
        ChainmrStatus::Unknown,
    ];
    for s in all {
        assert_eq!(ChainmrStatus::from_text(&s.to_text()), s);
    }
    assert_eq!(ChainmrStatus::to_text(&ChainmrStatus::WaitPipeline), "wait_pipeline");
    assert_eq!(
        ChainmrStatus::from_text(&"??".to_string()),
        ChainmrStatus::Unknown
    );
}

#[test]
fn success_and_failed_family_are_disjoint() {
    assert!(GlPiplineStatus::Success.is_success());
    assert!(!GlPiplineStatus::Success.is_cancelled());
    for s in [GlPiplineStatus::Failed, GlPiplineStatus::Canceled, GlPiplineStatus::Skipped] {
        assert!(s.is_cancelled());
        assert!(!s.is_success());
    }
    assert!(!GlPiplineStatus::Running.is_success());
    assert!(!GlPiplineStatus::Running.is_cancelled());
    // An unrecognised status counts as in progress, never as a failure.
    assert!(!GlPiplineStatus::Unknown.is_success());
    assert!(!GlPiplineStatus::Unknown.is_cancelled());
}

#[test]
fn decimal_rendering() {
    assert_eq!(u64_to_string(0), "0");
    assert_eq!(u64_to_string(7), "7");
    assert_eq!(u64_to_string(90), "90");
    assert_eq!(u64_to_string(12345), "12345");
    assert_eq!(u64_to_string(u64::MAX), "18446744073709551615");
    assert_eq!(i32_to_string(-7), "-7");
    assert_eq!(i32_to_string(42), "42");
    assert_eq!(i64_to_string(i64::MIN), "-9223372036854775808");
}

#[test]
fn substring_search() {
    assert!(str_contains("hello world", "lo wo"));
    assert!(str_contains("hello", ""));
    assert!(!str_contains("hello", "hero"));
    assert!(!str_contains("he", "hello"));
    assert!(str_contains("большой техдолг тут", "техдолг"));
    assert!(str_eq("техдолг", "техдолг"));
    assert!(!str_eq("техдолг", "техдол"));
}

#[test]
fn decimal_parsing() {
    assert_eq!(parse_u64("0"), Some(0));
    assert_eq!(parse_u64("123"), Some(123));
    assert_eq!(parse_u64("18446744073709551615"), Some(u64::MAX));
    assert_eq!(parse_u64("18446744073709551616"), None);
    assert_eq!(parse_u64(""), None);
    assert_eq!(parse_u64("12x"), None);
}

#[test]
fn task_branch_names() {
    assert_eq!(task_iid_from_branch("123-task"), Some(123));
    assert_eq!(task_iid_from_branch("7-task"), Some(7));
    assert_eq!(task_iid_from_branch("feature/9"), None);
    assert_eq!(task_iid_from_branch("-task"), None);
    assert_eq!(task_iid_from_branch("x7-task"), None);
}

#[test]
fn epic_target_branch() {
    let debt = GlEpic {
        iid: 5,
        title: "техдолг".to_string(),
        parent_iid: None,
        web_url: String::new(),
        labels: vec![],
    };
    assert_eq!(target_branch_for_epic(&debt), "stage");
    let feature = GlEpic {
        iid: 5,
        title: "Фича".to_string(),
        parent_iid: None,
        web_url: String::new(),
        labels: vec![],
    };
    assert_eq!(target_branch_for_epic(&feature), "feature/5");
}

#[test]
fn techdebt_epics() {
    let by_label = GlEpic {
        iid: 1,
        title: "Прочее".to_string(),
        parent_iid: None,
        web_url: String::new(),
        labels: vec!["тип::техдолг".to_string()],
    };
    assert!(by_label.is_techdebt());

    let root = GlEpic {
        iid: 2,
        title: "Прочее".to_string(),
        parent_iid: None,
        web_url: String::new(),
        labels: vec!["тип::техдолг".to_string(), "корневой эпик".to_string()],
    };
    assert!(!root.is_techdebt());

    // The uppercase title only matches after real case folding.
    let by_title = GlEpic {
        iid: 3,
        title: "ТЕХДОЛГ: разное".to_string(),
        parent_iid: None,
        web_url: String::new(),
        labels: vec![],
    };
    assert!(by_title.is_techdebt());

    let neither = GlEpic {
        iid: 4,
        title: "Фича".to_string(),
        parent_iid: None,
        web_url: String::new(),
        labels: vec!["другое".to_string()],
    };
    assert!(!neither.is_techdebt());
}

#[test]
fn epic_branch_name() {
    let epic = GlEpic {
        iid: 42,
        title: String::new(),
        parent_iid: None,
        web_url: String::new(),
        labels: vec![],
    };
    assert_eq!(epic.get_branch_name(), "feature/42");
}

#[test]
fn epic_api_builder() {
    let api = EpicApi::builder().group_id(10).iid(7).build().unwrap();
    assert_eq!(api.group_id, 10);
    assert_eq!(api.iid, 7);
    assert!(EpicApi::builder().group_id(10).build().is_err());
    assert!(EpicApi::builder().iid(7).build().is_err());
}

#[test]
fn epic_api_request() {
    let api = EpicApi::builder().group_id(10).iid(7).build().unwrap();
    assert_eq!(api.method(), "GET");
    assert_eq!(api.endpoint(), "groups/10/epics/7");
}

#[test]
fn gitlab_manager_requires_token() {
    let err = GitlabManager::new(String::new(), "gitlab.example.com".to_string());
    assert_eq!(err.unwrap_err(), "Не указан токен");
    let ok = GitlabManager::new("token".to_string(), "gitlab.example.com".to_string()).unwrap();
    assert_eq!(ok.gitlab_token, "token");
    assert_eq!(ok.gitlab_host, "gitlab.example.com");
}

#[test]
fn printer_lines() {
    assert_eq!(Printer::print_error("x".to_string(), None), " ERROR  x");
    assert_eq!(
        Printer::print_error("x".to_string(), Some("GitLab".to_string())),
        "GitLab ERROR  x"
    );
    assert_eq!(Printer::print_warning("y".to_string(), None), " WARN  y");
    assert_eq!(Printer::print_info("z".to_string(), None), " INFO  z");
    assert_eq!(Printer::print_success("done".to_string(), None), "done");
}

#[test]
fn config_updates() {
    let base = AppConfig::default();
    assert_eq!(base.gitlab_token, "");
    assert_eq!(base.gitlab_host, "gitlab.example.com");
    let with_host = update_host_command(&base, &"gl.other.org".to_string());
    assert_eq!(with_host.gitlab_host, "gl.other.org");
    assert_eq!(with_host.gitlab_token, "");
    let with_token = update_token_command(&with_host, &"glpat-new".to_string());
    assert_eq!(with_token.gitlab_token, "glpat-new");
    assert_eq!(with_token.gitlab_host, "gl.other.org");
}

#[test]
fn config_paths() {
    assert_eq!(
        get_app_config_file_path(Some("/home/u/.config/awork".to_string())),
        Some("/home/u/.config/awork/server.json".to_string())
    );
    assert_eq!(get_app_config_file_path(None), None);
    assert_eq!(
        get_project_config_file_path(&"/repo".to_string()),
        "/repo/.aworkcli"
    );
}

#[test]
fn remote_info_from_url() {
    let host = "gitlab.example.com".to_string();
    let (group, project) = project_remote_info(
        &"https://gitlab.example.com/team/proj.git".to_string(),
        &host,
    )
    .unwrap();
    assert_eq!(group, "team");
    assert_eq!(project, "team/proj.git");

    let err = project_remote_info(&"https://elsewhere.org/team/proj".to_string(), &host);
    assert_eq!(
        err.unwrap_err(),
        "Хост репозитория проекта отличен от gitlab.example.com"
    );

    assert!(project_remote_info(&"not a url".to_string(), &host).is_err());
}
