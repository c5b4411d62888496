//! Commit records as the hosting platform's commit listing describes them.
use vstd::prelude::*;

verus! {

/// The git-level payload of a commit: its message and who wrote it.
#[derive(Debug, Clone, Default)]
pub struct CommitInfo {
    pub author: CommitAuthor,
    pub committer: CommitCommiter,
    pub message: String,
    pub tree: CommitTree,
    pub url: String,
    pub comment_count: u32,
    pub verification: CommitVerification,
}

/// Name, e-mail and date of the person who wrote a commit.
#[derive(Debug, Clone, Default)]
pub struct CommitAuthor {
    pub name: String,
    pub email: String,
    pub date: String,
}

/// Name, e-mail and date of the person who committed a commit.
#[derive(Debug, Clone, Default)]
pub struct CommitCommiter {
    pub name: String,
    pub email: String,
    pub date: String,
}

/// The tree object a commit points at.
#[derive(Debug, Clone, Default)]
pub struct CommitTree {
    pub sha: String,
    pub url: String,
}

/// Signature verification status of a commit.
#[derive(Debug, Clone, Default)]
pub struct CommitVerification {
    pub verified: bool,
    pub reason: String,
    pub signature: String,
    pub payload: String,
}

/// The platform account that authored a commit.
#[derive(Debug, Clone, Default)]
pub struct Author {
    pub login: String,
    pub id: u64,
    pub node_id: String,
    pub avatar_url: String,
    pub gravatar_id: String,
    pub url: String,
    pub html_url: String,
    pub followers_url: String,
    pub following_url: String,
    pub gists_url: String,
    pub starred_url: String,
    pub subscriptions_url: String,
    pub organizations_url: String,
    pub repos_url: String,
    pub events_url: String,
    pub received_events_url: String,
    /// The account kind ("User", "Bot", ...).
    pub account_type: String,
    pub site_admin: bool,
}

/// The platform account that committed a commit.
#[derive(Debug, Clone, Default)]
pub struct Committer {
    pub login: String,
    pub id: u64,
    pub node_id: String,
    pub avatar_url: String,
    pub gravatar_id: String,
    pub url: String,
    pub html_url: String,
    pub followers_url: String,
    pub following_url: String,
    pub gists_url: String,
    pub starred_url: String,
    pub subscriptions_url: String,
    pub organizations_url: String,
    pub repos_url: String,
    pub events_url: String,
    pub received_events_url: String,
    /// The account kind ("User", "Bot", ...).
    pub account_type: String,
    pub site_admin: bool,
}

/// A parent of a commit.
#[derive(Debug, Clone, Default)]
pub struct Parents {
    pub sha: String,
    pub url: String,
    pub html_url: String,
}

/// One commit of a repository's history.
#[derive(Debug, Clone, Default)]
pub struct Commit {
    pub sha: String,
    pub node_id: String,
    pub commit: CommitInfo,
    pub url: String,
    pub html_url: String,
    pub comments_url: String,
    pub author: Author,
    pub committer: Committer,
    pub parents: Vec<Parents>,
}

impl Commit {
    /// The commit message, as characters.
    pub open spec fn message(self) -> Seq<char> {
        self.commit.message@
    }
}

} // verus!
