use vstd::prelude::*;
use crate::ids::GithubRepositoryId;

verus! {

/// Kind of an issue on the code-hosting platform.
#[derive(Clone, Copy, Debug, PartialEq, Eq, Structural)]
pub enum GithubIssueType {
    Issue,
    PullRequest,
}

/// Status of an issue or pull request.
#[derive(Clone, Copy, Debug, PartialEq, Eq, Structural)]
pub enum GithubIssueStatus {
    Open,
    Completed,
    Cancelled,
    Merged,
    Closed,
}

/// A user of the code-hosting platform.
#[derive(Debug)]
pub struct GithubUser {
    pub id: u64,
    pub login: String,
    pub avatar_url: String,
    pub html_url: String,
}

/// A repository of the code-hosting platform.
#[derive(Debug)]
pub struct GithubRepo {
    pub id: GithubRepositoryId,
    pub owner: String,
    pub name: String,
    pub html_url: String,
}

/// An issue or pull request. Instants are seconds since the Unix epoch, in UTC.
#[derive(Debug)]
pub struct GithubIssue {
    pub id: u64,
    pub repo_id: GithubRepositoryId,
    pub number: u64,
    pub issue_type: GithubIssueType,
    pub status: GithubIssueStatus,
    pub title: String,
    pub html_url: String,
    pub created_at: i64,
    pub author: GithubUser,
    pub merged_at: Option<i64>,
    pub closed_at: Option<i64>,
}

/// A user who contributed to a repository for the first time.
#[derive(Debug)]
pub struct NewContributor {
    pub user_id: u64,
    pub repo_id: GithubRepositoryId,
}

/// A fact that originates on the code-hosting platform.
#[derive(Debug)]
pub enum GithubEvent {
    Repo(GithubRepo),
    PullRequest(GithubIssue),
    Issue(GithubIssue),
    User(GithubUser),
    NewContributor(NewContributor),
}

} // verus!
