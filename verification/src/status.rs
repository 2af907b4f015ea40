//! Status enumerations mirrored from the remote hosting service and the
//! chain-task state machine, together with their persisted text forms.

use vstd::prelude::*;

verus! {

/// Status of a remote pipeline. `Unknown` stands for a status text the
/// service reports that this library does not recognise; it is treated as
/// in progress (transient), never as a failure.
#[derive(Clone, Copy, Debug, PartialEq, Eq, Structural)]
pub enum GlPiplineStatus {
    Created,
    WaitingForResource,
    Preparing,
    Pending,
    Running,
    Success,
    Failed,
    Canceled,
    Skipped,
    Manual,
    Scheduled,
    Unknown,
}

/// The failed family: statuses that end a pipeline without success.
pub open spec fn spec_is_cancelled(s: GlPiplineStatus) -> bool {
    s is Failed || s is Canceled || s is Skipped
}

/// Success is the only successful terminal status.
pub open spec fn spec_is_success(s: GlPiplineStatus) -> bool {
    s is Success
}

/// A terminal status: no further automated transition occurs from it.
pub open spec fn spec_is_terminal(s: GlPiplineStatus) -> bool {
    spec_is_success(s) || spec_is_cancelled(s)
}

/// The text form under which a pipeline status is persisted.
pub open spec fn spec_pipline_status_text(s: GlPiplineStatus) -> Seq<char> {
    match s {
        GlPiplineStatus::Created => "created"@,
        GlPiplineStatus::WaitingForResource => "waiting_for_resource"@,
        GlPiplineStatus::Preparing => "preparing"@,
        GlPiplineStatus::Pending => "pending"@,
        GlPiplineStatus::Running => "running"@,
        GlPiplineStatus::Success => "success"@,
        GlPiplineStatus::Failed => "failed"@,
        GlPiplineStatus::Canceled => "canceled"@,
        GlPiplineStatus::Skipped => "skipped"@,
        GlPiplineStatus::Manual => "manual"@,
        GlPiplineStatus::Scheduled => "scheduled"@,
        GlPiplineStatus::Unknown => "unknown"@,
    }
}

/// Parsing a pipeline status text, the service's or a stored one; an
/// unrecognised text parses to `Unknown`.
pub open spec fn spec_pipline_status_from_text(s: Seq<char>) -> GlPiplineStatus {
    if s == "created"@ {
        GlPiplineStatus::Created
    } else if s == "waiting_for_resource"@ {
        GlPiplineStatus::WaitingForResource
    } else if s == "preparing"@ {
        GlPiplineStatus::Preparing
    } else if s == "pending"@ {
        GlPiplineStatus::Pending
    } else if s == "running"@ {
        GlPiplineStatus::Running
    } else if s == "success"@ {
        GlPiplineStatus::Success
    } else if s == "failed"@ {
        GlPiplineStatus::Failed
    } else if s == "canceled"@ {
        GlPiplineStatus::Canceled
    } else if s == "skipped"@ {
        GlPiplineStatus::Skipped
    } else if s == "manual"@ {
        GlPiplineStatus::Manual
    } else if s == "scheduled"@ {
        GlPiplineStatus::Scheduled
    } else {
        GlPiplineStatus::Unknown
    }
}

impl GlPiplineStatus {
    /// True for the failed family `{failed, canceled, skipped}`.
    pub fn is_cancelled(&self) -> (r: bool)
        ensures
            r == spec_is_cancelled(*self),
    {
        match self {
            GlPiplineStatus::Failed | GlPiplineStatus::Canceled | GlPiplineStatus::Skipped => true,
            _ => false,
        }
    }

    /// True only for `Success`.
    pub fn is_success(&self) -> (r: bool)
        ensures
            r == spec_is_success(*self),
    {
        match self {
            GlPiplineStatus::Success => true,
            _ => false,
        }
    }

    /// The text form under which this status is persisted.
    pub fn to_text(&self) -> (r: String)
        ensures
            r@ == spec_pipline_status_text(*self),
    {
        match self {
            GlPiplineStatus::Created => String::from_str("created"),
            GlPiplineStatus::WaitingForResource => String::from_str("waiting_for_resource"),
            GlPiplineStatus::Preparing => String::from_str("preparing"),
            GlPiplineStatus::Pending => String::from_str("pending"),
            GlPiplineStatus::Running => String::from_str("running"),
            GlPiplineStatus::Success => String::from_str("success"),
            GlPiplineStatus::Failed => String::from_str("failed"),
            GlPiplineStatus::Canceled => String::from_str("canceled"),
            GlPiplineStatus::Skipped => String::from_str("skipped"),
            GlPiplineStatus::Manual => String::from_str("manual"),
            GlPiplineStatus::Scheduled => String::from_str("scheduled"),
            GlPiplineStatus::Unknown => String::from_str("unknown"),
        }
    }

    /// Parses a persisted text form back into a status.
    pub fn from_text(s: &String) -> (r: GlPiplineStatus)
        ensures
            r == spec_pipline_status_from_text(s@),
    {
        if *s == String::from_str("created") {
            GlPiplineStatus::Created
        } else if *s == String::from_str("waiting_for_resource") {
            GlPiplineStatus::WaitingForResource
        } else if *s == String::from_str("preparing") {
            GlPiplineStatus::Preparing
        } else if *s == String::from_str("pending") {
            GlPiplineStatus::Pending
        } else if *s == String::from_str("running") {
            GlPiplineStatus::Running
        } else if *s == String::from_str("success") {
            GlPiplineStatus::Success
        } else if *s == String::from_str("failed") {
            GlPiplineStatus::Failed
        } else if *s == String::from_str("canceled") {
            GlPiplineStatus::Canceled
        } else if *s == String::from_str("skipped") {
            GlPiplineStatus::Skipped
        } else if *s == String::from_str("manual") {
            GlPiplineStatus::Manual
        } else if *s == String::from_str("scheduled") {
            GlPiplineStatus::Scheduled
        } else {
            GlPiplineStatus::Unknown
        }
    }
}

/// No status is both successful and in the failed family, and every status
/// is exactly one of successful, failed-family, or in progress.
pub proof fn lemma_pipline_status_classification()
    ensures
        forall|s: GlPiplineStatus| !(spec_is_success(s) && spec_is_cancelled(s)),
        forall|s: GlPiplineStatus| spec_is_success(s) ==> !spec_is_cancelled(s),
        forall|s: GlPiplineStatus| spec_is_cancelled(s) ==> !spec_is_success(s),
{
}

/// Rendering a pipeline status to text and parsing it back yields the same
/// status.
pub proof fn lemma_pipline_status_text_round_trip(s: GlPiplineStatus)
    ensures
        spec_pipline_status_from_text(spec_pipline_status_text(s)) == s,
{
    reveal_strlit("created");
    reveal_strlit("waiting_for_resource");
    reveal_strlit("preparing");
    reveal_strlit("pending");
    reveal_strlit("running");
    reveal_strlit("success");
    reveal_strlit("failed");
    reveal_strlit("canceled");
    reveal_strlit("skipped");
    reveal_strlit("manual");
    reveal_strlit("scheduled");
    reveal_strlit("unknown");
    assert("created"@.len() == 7 && "created"@[0] == 'c');
    assert("waiting_for_resource"@.len() == 20);
    assert("preparing"@.len() == 9 && "preparing"@[0] == 'p');
    assert("pending"@.len() == 7 && "pending"@[0] == 'p');
    assert("running"@.len() == 7 && "running"@[0] == 'r');
    assert("success"@.len() == 7 && "success"@[0] == 's' && "success"@[1] == 'u');
    assert("failed"@.len() == 6 && "failed"@[0] == 'f');
    assert("canceled"@.len() == 8);
    assert("skipped"@.len() == 7 && "skipped"@[0] == 's' && "skipped"@[1] == 'k');
    assert("manual"@.len() == 6 && "manual"@[0] == 'm');
    assert("scheduled"@.len() == 9 && "scheduled"@[0] == 's');
    assert("unknown"@.len() == 7 && "unknown"@[0] == 'u');
    match s {
        GlPiplineStatus::Created => {
            assert(spec_pipline_status_from_text("created"@) == GlPiplineStatus::Created);
        },
        GlPiplineStatus::WaitingForResource => {
            assert(spec_pipline_status_from_text("waiting_for_resource"@)
                == GlPiplineStatus::WaitingForResource);
        },
        GlPiplineStatus::Preparing => {
            assert(spec_pipline_status_from_text("preparing"@) == GlPiplineStatus::Preparing);
        },
        GlPiplineStatus::Pending => {
            assert(spec_pipline_status_from_text("pending"@) == GlPiplineStatus::Pending);
        },
        GlPiplineStatus::Running => {
            assert(spec_pipline_status_from_text("running"@) == GlPiplineStatus::Running);
        },
        GlPiplineStatus::Success => {
            assert(spec_pipline_status_from_text("success"@) == GlPiplineStatus::Success);
        },
        GlPiplineStatus::Failed => {
            assert(spec_pipline_status_from_text("failed"@) == GlPiplineStatus::Failed);
        },
        GlPiplineStatus::Canceled => {
            assert(spec_pipline_status_from_text("canceled"@) == GlPiplineStatus::Canceled);
        },
        GlPiplineStatus::Skipped => {
            assert(spec_pipline_status_from_text("skipped"@) == GlPiplineStatus::Skipped);
        },
        GlPiplineStatus::Manual => {
            assert(spec_pipline_status_from_text("manual"@) == GlPiplineStatus::Manual);
        },
        GlPiplineStatus::Scheduled => {
            assert(spec_pipline_status_from_text("scheduled"@) == GlPiplineStatus::Scheduled);
        },
        GlPiplineStatus::Unknown => {
            assert(spec_pipline_status_from_text("unknown"@) == GlPiplineStatus::Unknown);
        },
    }
}

/// State of a remote merge request. `Unknown` stands for an unrecognised
/// state text; such a row is neither polled as open nor retired as
/// closed.
#[derive(Clone, Copy, Debug, PartialEq, Eq, Structural)]
pub enum GlMergeRequestState {
    Closed,
    Opened,
    Locked,
    Merged,
    Unknown,
}

/// The text form under which a merge-request state is persisted.
pub open spec fn spec_mr_state_text(s: GlMergeRequestState) -> Seq<char> {
    match s {
        GlMergeRequestState::Closed => "closed"@,
        GlMergeRequestState::Opened => "opened"@,
        GlMergeRequestState::Locked => "locked"@,
        GlMergeRequestState::Merged => "merged"@,
        GlMergeRequestState::Unknown => "unknown"@,
    }
}

/// Parsing a merge-request state text, the service's or a stored one; an
/// unrecognised text parses to `Unknown`.
pub open spec fn spec_mr_state_from_text(s: Seq<char>) -> GlMergeRequestState {
    if s == "closed"@ {
        GlMergeRequestState::Closed
    } else if s == "opened"@ {
        GlMergeRequestState::Opened
    } else if s == "locked"@ {
        GlMergeRequestState::Locked
    } else if s == "merged"@ {
        GlMergeRequestState::Merged
    } else {
        GlMergeRequestState::Unknown
    }
}

impl GlMergeRequestState {
    /// The text form under which this state is persisted.
    pub fn to_text(&self) -> (r: String)
        ensures
            r@ == spec_mr_state_text(*self),
    {
        match self {
            GlMergeRequestState::Closed => String::from_str("closed"),
            GlMergeRequestState::Opened => String::from_str("opened"),
            GlMergeRequestState::Locked => String::from_str("locked"),
            GlMergeRequestState::Merged => String::from_str("merged"),
            GlMergeRequestState::Unknown => String::from_str("unknown"),
        }
    }

    /// Parses a persisted text form back into a state.
    pub fn from_text(s: &String) -> (r: GlMergeRequestState)
        ensures
            r == spec_mr_state_from_text(s@),
    {
        if *s == String::from_str("closed") {
            GlMergeRequestState::Closed
        } else if *s == String::from_str("opened") {
            GlMergeRequestState::Opened
        } else if *s == String::from_str("locked") {
            GlMergeRequestState::Locked
        } else if *s == String::from_str("merged") {
            GlMergeRequestState::Merged
        } else {
            GlMergeRequestState::Unknown
        }
    }
}

/// Rendering a merge-request state to text and parsing it back yields the
/// same state.
pub proof fn lemma_mr_state_text_round_trip(s: GlMergeRequestState)
    ensures
        spec_mr_state_from_text(spec_mr_state_text(s)) == s,
{
    reveal_strlit("closed");
    reveal_strlit("opened");
    reveal_strlit("locked");
    reveal_strlit("merged");
    reveal_strlit("unknown");
    assert("closed"@.len() == 6 && "closed"@[0] == 'c');
    assert("opened"@.len() == 6 && "opened"@[0] == 'o');
    assert("locked"@.len() == 6 && "locked"@[0] == 'l');
    assert("merged"@.len() == 6 && "merged"@[0] == 'm');
    assert("unknown"@.len() == 7);
}

/// Status of a chain task and of each of its steps. `Unknown` stands for
/// an unrecognised stored text; such a task is left alone.
#[derive(Clone, Copy, Debug, PartialEq, Eq, Structural)]
pub enum ChainmrStatus {
    Created,
    Pending,
    Success,
    Failed,
    WaitPipeline,
    Unknown,
}

/// The text form under which a chain status is persisted.
pub open spec fn spec_chain_status_text(s: ChainmrStatus) -> Seq<char> {
    match s {
        ChainmrStatus::Created => "created"@,
        ChainmrStatus::Pending => "pending"@,
        ChainmrStatus::Success => "success"@,
        ChainmrStatus::Failed => "failed"@,
        ChainmrStatus::WaitPipeline => "wait_pipeline"@,
        ChainmrStatus::Unknown => "unknown"@,
    }
}

/// Parsing a persisted chain status; an unrecognised text parses to
/// `Unknown`.
pub open spec fn spec_chain_status_from_text(s: Seq<char>) -> ChainmrStatus {
    if s == "created"@ {
        ChainmrStatus::Created
    } else if s == "pending"@ {
        ChainmrStatus::Pending
    } else if s == "success"@ {
        ChainmrStatus::Success
    } else if s == "failed"@ {
        ChainmrStatus::Failed
    } else if s == "wait_pipeline"@ {
        ChainmrStatus::WaitPipeline
    } else {
        ChainmrStatus::Unknown
    }
}

impl ChainmrStatus {
    /// The text form under which this status is persisted.
    pub fn to_text(&self) -> (r: String)
        ensures
            r@ == spec_chain_status_text(*self),
    {
        match self {
            ChainmrStatus::Created => String::from_str("created"),
            ChainmrStatus::Pending => String::from_str("pending"),
            ChainmrStatus::Success => String::from_str("success"),
            ChainmrStatus::Failed => String::from_str("failed"),
            ChainmrStatus::WaitPipeline => String::from_str("wait_pipeline"),
            ChainmrStatus::Unknown => String::from_str("unknown"),
        }
    }

    /// Parses a persisted text form back into a status.
    pub fn from_text(s: &String) -> (r: ChainmrStatus)
        ensures
            r == spec_chain_status_from_text(s@),
    {
        if *s == String::from_str("created") {
            ChainmrStatus::Created
        } else if *s == String::from_str("pending") {
            ChainmrStatus::Pending
        } else if *s == String::from_str("success") {
            ChainmrStatus::Success
        } else if *s == String::from_str("failed") {
            ChainmrStatus::Failed
        } else if *s == String::from_str("wait_pipeline") {
            ChainmrStatus::WaitPipeline
        } else {
            ChainmrStatus::Unknown
        }
    }
}

/// Rendering a chain status to text and parsing it back yields the same
/// status.
pub proof fn lemma_chain_status_text_round_trip(s: ChainmrStatus)
    ensures
        spec_chain_status_from_text(spec_chain_status_text(s)) == s,
{
    reveal_strlit("created");
    reveal_strlit("pending");
    reveal_strlit("success");
    reveal_strlit("failed");
    reveal_strlit("wait_pipeline");
    reveal_strlit("unknown");
    assert("created"@.len() == 7 && "created"@[0] == 'c');
    assert("pending"@.len() == 7 && "pending"@[0] == 'p');
    assert("success"@.len() == 7 && "success"@[0] == 's');
    assert("failed"@.len() == 6 && "failed"@[0] == 'f');
    assert("wait_pipeline"@.len() == 13);
    assert("unknown"@.len() == 7 && "unknown"@[0] == 'u');
}

} // verus!
