use vstd::prelude::*;
use crate::github::{GithubEvent, GithubIssue, GithubIssueStatus, GithubIssueType};
use crate::ids::GithubRepositoryId;

verus! {

/// A read-model row describing an issue or pull request, keyed by `id`.
#[derive(Debug)]
pub struct GithubIssueRow {
    pub id: u64,
    pub repo_id: GithubRepositoryId,
    pub number: u64,
    pub created_at: i64,
    pub author_id: u64,
    pub merged_at: Option<i64>,
    pub issue_type: GithubIssueType,
    pub status: GithubIssueStatus,
    pub title: String,
    pub html_url: String,
    pub closed_at: Option<i64>,
}

/// What a row holds, with its texts as characters.
pub struct IssueRecord {
    pub id: u64,
    pub repo_id: GithubRepositoryId,
    pub number: u64,
    pub created_at: i64,
    pub author_id: u64,
    pub merged_at: Option<i64>,
    pub issue_type: GithubIssueType,
    pub status: GithubIssueStatus,
    pub title: Seq<char>,
    pub html_url: Seq<char>,
    pub closed_at: Option<i64>,
}

impl View for GithubIssueRow {
    type V = IssueRecord;

    open spec fn view(&self) -> IssueRecord {
        IssueRecord {
            id: self.id,
            repo_id: self.repo_id,
            number: self.number,
            created_at: self.created_at,
            author_id: self.author_id,
            merged_at: self.merged_at,
            issue_type: self.issue_type,
            status: self.status,
            title: self.title@,
            html_url: self.html_url@,
            closed_at: self.closed_at,
        }
    }
}

/// The row that describes an issue.
pub open spec fn record_of(issue: &GithubIssue) -> IssueRecord {
    IssueRecord {
        id: issue.id,
        repo_id: issue.repo_id,
        number: issue.number,
        created_at: issue.created_at,
        author_id: issue.author.id,
        merged_at: issue.merged_at,
        issue_type: issue.issue_type,
        status: issue.status,
        title: issue.title@,
        html_url: issue.html_url@,
        closed_at: issue.closed_at,
    }
}

impl GithubIssueRow {
    /// The row that describes `issue`.
    pub fn from_issue(issue: &GithubIssue) -> (r: GithubIssueRow)
        ensures
            r@ == record_of(issue),
    {
        GithubIssueRow {
            id: issue.id,
            repo_id: issue.repo_id,
            number: issue.number,
            created_at: issue.created_at,
            author_id: issue.author.id,
            merged_at: issue.merged_at,
            issue_type: issue.issue_type,
            status: issue.status,
            title: issue.title.clone(),
            html_url: issue.html_url.clone(),
            closed_at: issue.closed_at,
        }
    }
}

/// No two rows share a key.
pub open spec fn keys_unique(rows: Seq<IssueRecord>) -> bool {
    forall|i: int, j: int|
        0 <= i < rows.len() && 0 <= j < rows.len() && i != j ==> #[trigger] rows[i].id
            != #[trigger] rows[j].id
}

/// Whether a row with key `id` is present.
pub open spec fn has_key(rows: Seq<IssueRecord>, id: u64) -> bool {
    exists|i: int| 0 <= i < rows.len() && #[trigger] rows[i].id == id
}

/// The rows after writing `row`: it replaces the row with its key, or is
/// added after the others when there is none.
pub open spec fn upserted(rows: Seq<IssueRecord>, row: IssueRecord) -> Seq<IssueRecord> {
    if has_key(rows, row.id) {
        rows.update(choose|i: int| 0 <= i < rows.len() && #[trigger] rows[i].id == row.id, row)
    } else {
        rows.push(row)
    }
}

proof fn lemma_upserted_at(rows: Seq<IssueRecord>, row: IssueRecord, i: int)
    requires
        keys_unique(rows),
        0 <= i < rows.len(),
        rows[i].id == row.id,
    ensures
        upserted(rows, row) == rows.update(i, row),
{
    let j = choose|j: int| 0 <= j < rows.len() && #[trigger] rows[j].id == row.id;
    assert(j == i);
}

/// Writing a row keeps keys unique and leaves exactly one row with its key,
/// holding what was written.
pub proof fn lemma_upserted_one_row(rows: Seq<IssueRecord>, row: IssueRecord)
    requires
        keys_unique(rows),
    ensures
        keys_unique(upserted(rows, row)),
        exists|i: int|
            0 <= i < upserted(rows, row).len() && upserted(rows, row)[i] == row && forall|
                j: int,
            |
                0 <= j < upserted(rows, row).len() && j != i ==> #[trigger] upserted(
                    rows,
                    row,
                )[j].id != row.id,
{
    let u = upserted(rows, row);
    if has_key(rows, row.id) {
        let i = choose|i: int| 0 <= i < rows.len() && #[trigger] rows[i].id == row.id;
        assert(u[i] == row);
    } else {
        assert(u[rows.len() as int] == row);
    }
}

/// Writing the same row twice leaves what writing it once leaves, and of two
/// writes with one key the last one wins.
pub proof fn lemma_upsert_last_write_wins(rows: Seq<IssueRecord>, first: IssueRecord, last: IssueRecord)
    requires
        keys_unique(rows),
        first.id == last.id,
    ensures
        upserted(upserted(rows, first), last) == upserted(rows, last),
{
    lemma_upserted_one_row(rows, first);
    let u = upserted(rows, first);
    if has_key(rows, first.id) {
        let i = choose|i: int| 0 <= i < rows.len() && #[trigger] rows[i].id == first.id;
        lemma_upserted_at(u, last, i);
        lemma_upserted_at(rows, last, i);
        assert(u.update(i, last) =~= rows.update(i, last));
    } else {
        let i = rows.len() as int;
        assert(u[i].id == last.id);
        lemma_upserted_at(u, last, i);
        assert(u.update(i, last) =~= rows.push(last));
    }
}

/// Read-model table of issue rows, keyed by the issue's identity.
#[derive(Debug)]
pub struct GithubIssuesRepository {
    rows: Vec<GithubIssueRow>,
}

impl GithubIssuesRepository {
    /// The rows, in the order their keys were first written.
    pub closed spec fn records(&self) -> Seq<IssueRecord> {
        self.rows@.map_values(|r: GithubIssueRow| r@)
    }

    pub closed spec fn wf(&self) -> bool {
        keys_unique(self.records())
    }

    /// An empty table.
    pub fn new() -> (r: GithubIssuesRepository)
        ensures
            r.wf(),
            r.records() == Seq::<IssueRecord>::empty(),
    {
        let r = GithubIssuesRepository { rows: Vec::new() };
        assert(r.records() =~= Seq::<IssueRecord>::empty());
        r
    }

    /// The number of rows.
    pub fn len(&self) -> (r: usize)
        ensures
            r == self.records().len(),
    {
        self.rows.len()
    }

    /// The row at `index`.
    pub fn get(&self, index: usize) -> (r: &GithubIssueRow)
        requires
            index < self.records().len(),
        ensures
            r@ == self.records()[index as int],
    {
        &self.rows[index]
    }

    /// Writes a row, overwriting the one with the same key.
    pub fn upsert(&mut self, row: GithubIssueRow)
        requires
            old(self).wf(),
        ensures
            final(self).wf(),
            final(self).records() == upserted(old(self).records(), row@),
    {
        let ghost before = self.records();
        let ghost written = row@;
        proof {
            lemma_upserted_one_row(before, written);
        }
        let mut i: usize = 0;
        while i < self.rows.len()
            invariant
                i <= self.rows@.len(),
                self.records() == before,
                keys_unique(before),
                written == row@,
                before == old(self).records(),
                keys_unique(upserted(before, written)),
                forall|k: int| 0 <= k < i ==> #[trigger] before[k].id != written.id,
            decreases self.rows@.len() - i,
        {
            proof {
                assert(before[i as int] == self.rows@[i as int]@);
            }
            if self.rows[i].id == row.id {
                proof {
                    lemma_upserted_at(before, written, i as int);
                }
                let ghost old_rows = self.rows@;
                self.rows.set(i, row);
                proof {
                    assert(self.rows@ == old_rows.update(i as int, row));
                    assert forall|k: int| 0 <= k < before.len() implies #[trigger] self.records()[k]
                        == before.update(i as int, written)[k] by {
                        assert(before[k] == old_rows[k]@);
                    }
                    assert(self.records() =~= before.update(i as int, written));
                }
                return;
            }
            i = i + 1;
        }
        let ghost old_rows = self.rows@;
        self.rows.push(row);
        proof {
            assert forall|k: int| 0 <= k < before.len() implies #[trigger] self.records()[k]
                == before.push(written)[k] by {
                assert(before[k] == old_rows[k]@);
            }
            assert(self.records() =~= before.push(written));
        }
    }
}

/// Why a listener could not handle a fact.
#[derive(Clone, Copy, Debug, PartialEq, Eq, Structural)]
pub enum SubscriberCallbackError {
    /// The fact could not be handled now; a later delivery may succeed.
    Discard,
    Fatal,
}

/// Projects issues and pull requests into the read-model table.
#[derive(Debug)]
pub struct Projector {
    github_issues_repository: GithubIssuesRepository,
}

impl Projector {
    pub closed spec fn wf(&self) -> bool {
        self.github_issues_repository.wf()
    }

    /// The rows of the table this projector writes.
    pub closed spec fn records(&self) -> Seq<IssueRecord> {
        self.github_issues_repository.records()
    }

    pub fn new(github_issues_repository: GithubIssuesRepository) -> (r: Projector)
        requires
            github_issues_repository.wf(),
        ensures
            r.wf(),
            r.records() == github_issues_repository.records(),
    {
        Projector { github_issues_repository }
    }

    /// The table this projector writes.
    pub fn repository(&self) -> (r: &GithubIssuesRepository)
        ensures
            r.wf() == self.wf(),
            r.records() == self.records(),
    {
        &self.github_issues_repository
    }

    /// Handles one delivered fact. An issue or pull request is written as a
    /// row, over any row with its key; a repository, user or new-contributor
    /// fact writes nothing. Either way the fact is handled.
    pub fn on_event(&mut self, event: &GithubEvent) -> (r: Result<(), SubscriberCallbackError>)
        requires
            old(self).wf(),
        ensures
            final(self).wf(),
            r is Ok,
            final(self).records() == match event {
                GithubEvent::PullRequest(issue) => upserted(old(self).records(), record_of(issue)),
                GithubEvent::Issue(issue) => upserted(old(self).records(), record_of(issue)),
                GithubEvent::Repo(_) => old(self).records(),
                GithubEvent::User(_) => old(self).records(),
                GithubEvent::NewContributor(_) => old(self).records(),
            },
    {
        match event {
            GithubEvent::PullRequest(issue) | GithubEvent::Issue(issue) => {
                self.github_issues_repository.upsert(GithubIssueRow::from_issue(issue));
            },
            GithubEvent::Repo(_) | GithubEvent::User(_) | GithubEvent::NewContributor(_) => {},
        }
        Ok(())
    }
}

/// Delivering the same issue or pull-request fact twice leaves the rows that
/// one delivery leaves: one row for it, with its values.
pub proof fn lemma_redelivery_is_idempotent(rows: Seq<IssueRecord>, issue: &GithubIssue)
    requires
        keys_unique(rows),
    ensures
        upserted(upserted(rows, record_of(issue)), record_of(issue)) == upserted(
            rows,
            record_of(issue),
        ),
{
    lemma_upsert_last_write_wins(rows, record_of(issue), record_of(issue));
}

} // verus!
