//! Data the remote hosting service reports, and the credential record the
//! remote client is built from. The HTTP transport itself lives outside the
//! library; everything here is plain data and the decisions made over it.

use vstd::prelude::*;
use crate::status::{GlMergeRequestState, GlPiplineStatus};
use crate::strutil::{lower_of, lowercase, spec_contains, spec_dec_digits, str_contains, str_eq, u64_to_string};

verus! {

/// A user account on the hosting service.
#[derive(Debug)]
pub struct GlUser {
    pub id: u64,
    pub username: String,
    pub name: String,
}

/// An epic: a long-lived feature grouping issues.
#[derive(Debug)]
pub struct GlEpic {
    pub iid: u16,
    pub title: String,
    pub parent_iid: Option<u16>,
    pub web_url: String,
    pub labels: Vec<String>,
}

/// `x` occurs among the labels `ls`.
pub open spec fn spec_has_label(ls: Seq<Seq<char>>, x: Seq<char>) -> bool {
    exists|i: int| 0 <= i < ls.len() && ls[i] == x
}

/// An epic counts as technical debt when it carries the debt label without
/// the root-epic label, or its lowercased title mentions debt.
pub open spec fn spec_is_techdebt(labels: Seq<Seq<char>>, title: Seq<char>) -> bool {
    (spec_has_label(labels, "тип::техдолг"@) && !spec_has_label(labels, "корневой эпик"@))
        || spec_contains(lower_of(title), "техдолг"@)
}

/// `x` occurs among the labels held in `ls`.
fn has_label(ls: &Vec<String>, x: &str) -> (r: bool)
    ensures
        r == spec_has_label(ls.deep_view(), x@),
{
    let mut i: usize = 0;
    while i < ls.len()
        invariant
            0 <= i <= ls.len(),
            forall|k: int| 0 <= k < i ==> ls.deep_view()[k] != x@,
        decreases ls.len() - i,
    {
        if str_eq(ls[i].as_str(), x) {
            assert(ls.deep_view()[i as int] == x@);
            return true;
        }
        i += 1;
    }
    false
}

impl GlEpic {
    /// Whether this epic is a technical-debt epic.
    pub fn is_techdebt(&self) -> (r: bool)
        ensures
            r == spec_is_techdebt(self.labels.deep_view(), self.title@),
    {
        (has_label(&self.labels, "тип::техдолг") && !has_label(&self.labels, "корневой эпик"))
            || str_contains(lowercase(self.title.as_str()).as_str(), "техдолг")
    }

    /// The name of the branch that carries this epic's work.
    pub fn get_branch_name(&self) -> (r: String)
        ensures
            r@ == "feature/"@ + spec_dec_digits(self.iid as nat),
    {
        let mut r = String::from_str("feature/");
        let digits = u64_to_string(self.iid as u64);
        r.append(digits.as_str());
        r
    }
}

/// The branch a merge request for this epic's work targets: technical
/// debt lands on the staging branch, everything else on the epic's own
/// branch.
pub fn target_branch_for_epic(epic: &GlEpic) -> (r: String)
    ensures
        spec_is_techdebt(epic.labels.deep_view(), epic.title@) ==> r@ == "stage"@,
        !spec_is_techdebt(epic.labels.deep_view(), epic.title@) ==> r@ == "feature/"@
            + spec_dec_digits(epic.iid as nat),
{
    if epic.is_techdebt() {
        String::from_str("stage")
    } else {
        epic.get_branch_name()
    }
}

/// The short form of an epic as it appears nested inside an issue.
#[derive(Debug)]
pub struct GlEpicShort {
    pub iid: u16,
    pub title: String,
}

/// An issue, optionally linked to an epic.
#[derive(Debug)]
pub struct GlIssue {
    pub iid: u64,
    pub title: String,
    pub web_url: String,
    pub epic: Option<GlEpicShort>,
}

/// A group on the hosting service.
#[derive(Debug)]
pub struct GlGroup {
    pub id: u64,
    pub name: String,
    pub web_url: String,
}

/// A project on the hosting service.
#[derive(Debug)]
pub struct GlProject {
    pub id: u64,
    pub name: String,
    pub web_url: String,
}

/// A pipeline as the remote reports it.
#[derive(Debug)]
pub struct GlPipeline {
    pub id: u64,
    pub iid: u64,
    pub status: GlPiplineStatus,
    pub web_url: String,
    pub sha: String,
}

/// A merge request as the remote reports it.
#[derive(Debug)]
pub struct GlMergeRequest {
    pub id: u64,
    pub iid: u64,
    pub title: String,
    pub web_url: String,
    pub assignees: Vec<GlUser>,
    pub reviewers: Vec<GlUser>,
    pub target_branch: String,
    pub source_branch: String,
    pub state: GlMergeRequestState,
    pub has_conflicts: bool,
    pub head_pipeline: Option<GlPipeline>,
    pub merge_commit_sha: Option<String>,
}

/// The credentials the remote client is built from. Building the HTTP
/// client itself, and every call through it, happens outside the library;
/// this record holds what those calls are made with.
#[derive(Debug)]
pub struct GitlabManager {
    pub gitlab_token: String,
    pub gitlab_host: String,
}

impl GitlabManager {
    /// Accepts the credentials, rejecting an empty token.
    pub fn new(token: String, host: String) -> (r: Result<GitlabManager, String>)
        ensures
            token@.len() == 0 ==> r is Err && r->Err_0@ == "Не указан токен"@,
            token@.len() > 0 ==> r is Ok && r->Ok_0.gitlab_token@ == token@
                && r->Ok_0.gitlab_host@ == host@,
    {
        if token.as_str().unicode_len() == 0 {
            return Err(String::from_str("Не указан токен"));
        }
        Ok(GitlabManager { gitlab_token: token, gitlab_host: host })
    }
}

/// The request description for fetching one epic of a group.
#[derive(Debug, Clone)]
pub struct EpicApi {
    pub group_id: u64,
    pub iid: u16,
}

impl EpicApi {
    /// Create a builder for the endpoint.
    pub fn builder() -> (r: EpicApiBuilder)
        ensures
            r.group_id is None,
            r.iid is None,
    {
        EpicApiBuilder { group_id: None, iid: None }
    }

    /// The HTTP method of the request.
    pub fn method(&self) -> (r: String)
        ensures
            r@ == "GET"@,
    {
        String::from_str("GET")
    }

    /// The request path under the service's API root.
    pub fn endpoint(&self) -> (r: String)
        ensures
            r@ == "groups/"@ + spec_dec_digits(self.group_id as nat) + "/epics/"@
                + spec_dec_digits(self.iid as nat),
    {
        let mut r = String::from_str("groups/");
        let group = u64_to_string(self.group_id);
        r.append(group.as_str());
        r.append("/epics/");
        let epic = u64_to_string(self.iid as u64);
        r.append(epic.as_str());
        r
    }
}

/// Collects the fields of an [`EpicApi`]; `build` fails while one is
/// missing.
#[derive(Debug, Clone)]
pub struct EpicApiBuilder {
    pub group_id: Option<u64>,
    pub iid: Option<u16>,
}

impl EpicApiBuilder {
    /// Sets the group identifier.
    pub fn group_id(self, group_id: u64) -> (r: EpicApiBuilder)
        ensures
            r.group_id == Some(group_id),
            r.iid == self.iid,
    {
        EpicApiBuilder { group_id: Some(group_id), ..self }
    }

    /// Sets the epic identifier.
    pub fn iid(self, iid: u16) -> (r: EpicApiBuilder)
        ensures
            r.iid == Some(iid),
            r.group_id == self.group_id,
    {
        EpicApiBuilder { iid: Some(iid), ..self }
    }

    /// Produces the request description; fails if and only if a field was
    /// never set.
    pub fn build(self) -> (r: Result<EpicApi, String>)
        ensures
            self.group_id is Some && self.iid is Some ==> r is Ok
                && r->Ok_0.group_id == self.group_id->0
                && r->Ok_0.iid == self.iid->0,
            self.group_id is None || self.iid is None ==> r is Err,
    {
        match (self.group_id, self.iid) {
            (Some(group_id), Some(iid)) => Ok(EpicApi { group_id, iid }),
            _ => Err(String::from_str("не заданы параметры запроса эпика")),
        }
    }
}

} // verus!
