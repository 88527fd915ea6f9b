use vstd::prelude::*;
use crate::event::{project_facts, ProjectEvent, ProjectFact};
use crate::ids::{GithubRepositoryId, ProjectId, UserId};

verus! {

/// State of a project, as folded from its facts.
pub struct ProjectState {
    pub id: ProjectId,
    pub name: Seq<char>,
    pub github_repo_id: GithubRepositoryId,
    pub leader_id: Option<UserId>,
}

/// The state of a project with no facts yet.
pub open spec fn initial_project() -> ProjectState {
    ProjectState {
        id: ProjectId { value: 0 },
        name: Seq::empty(),
        github_repo_id: GithubRepositoryId { value: 0 },
        leader_id: None,
    }
}

/// The state after one more fact.
pub open spec fn apply_project(s: ProjectState, f: ProjectFact) -> ProjectState {
    match f {
        ProjectFact::Created { id, name, github_repo_id } => ProjectState {
            id,
            name,
            github_repo_id,
            ..s
        },
        ProjectFact::LeaderAssigned { id, leader_id } => ProjectState {
            leader_id: Some(leader_id),
            ..s
        },
    }
}

/// The state that a sequence of project facts folds to, first fact first.
pub open spec fn fold_project(s: Seq<ProjectFact>) -> ProjectState
    decreases s.len(),
{
    if s.len() == 0 {
        initial_project()
    } else {
        apply_project(fold_project(s.drop_last()), s.last())
    }
}

/// The fold depends on nothing but the contents of the facts and their order:
/// two sequences of facts with the same contents fold to the same state.
pub proof fn lemma_project_fold_deterministic(a: Seq<ProjectEvent>, b: Seq<ProjectEvent>)
    requires
        project_facts(a) == project_facts(b),
    ensures
        fold_project(project_facts(a)) == fold_project(project_facts(b)),
{
}

/// Why a project command was refused.
#[derive(Clone, Copy, Debug, PartialEq, Eq, Structural)]
pub enum ProjectError {
    /// The repository that the project would track does not exist.
    GithubRepositoryNotFound(GithubRepositoryId),
}

/// The project aggregate, rebuilt from its facts for each use.
#[derive(Debug)]
pub struct Project {
    pub id: ProjectId,
    pub name: String,
    pub github_repo_id: GithubRepositoryId,
    pub leader_id: Option<UserId>,
}

impl View for Project {
    type V = ProjectState;

    open spec fn view(&self) -> ProjectState {
        ProjectState {
            id: self.id,
            name: self.name@,
            github_repo_id: self.github_repo_id,
            leader_id: self.leader_id,
        }
    }
}

impl Project {
    /// Applies one fact to this state.
    fn apply(&mut self, event: &ProjectEvent)
        ensures
            final(self)@ == apply_project(old(self)@, event@),
    {
        match event {
            ProjectEvent::Created { id, name, github_repo_id } => {
                self.id = *id;
                self.name = name.clone();
                self.github_repo_id = *github_repo_id;
            },
            ProjectEvent::LeaderAssigned { id: _, leader_id } => {
                self.leader_id = Some(*leader_id);
            },
        }
    }

    /// Rebuilds a project by folding its facts, first fact first.
    pub fn from_events(events: &Vec<ProjectEvent>) -> (r: Project)
        ensures
            r@ == fold_project(project_facts(events@)),
    {
        let mut p = Project {
            id: ProjectId { value: 0 },
            name: String::new(),
            github_repo_id: GithubRepositoryId { value: 0 },
            leader_id: None,
        };
        assert(p@ == fold_project(project_facts(events@.subrange(0, 0))));
        let mut i: usize = 0;
        while i < events.len()
            invariant
                i <= events@.len(),
                p@ == fold_project(project_facts(events@.subrange(0, i as int))),
            decreases events@.len() - i,
        {
            p.apply(&events[i]);
            proof {
                let next = project_facts(events@.subrange(0, i + 1));
                assert(next.drop_last() =~= project_facts(events@.subrange(0, i as int)));
                assert(next.last() == events@[i as int]@);
            }
            i = i + 1;
        }
        assert(events@.subrange(0, events@.len() as int) == events@);
        p
    }

    /// Creates a project tracking a repository; `repository_exists` is the
    /// platform's answer on whether that repository exists. When it does not,
    /// the command fails and no fact is produced.
    pub fn create(
        repository_exists: bool,
        id: ProjectId,
        name: String,
        github_repo_id: GithubRepositoryId,
    ) -> (r: Result<Vec<ProjectEvent>, ProjectError>)
        ensures
            repository_exists ==> (r matches Ok(events) && project_facts(events@) == seq![
                ProjectFact::Created { id, name: name@, github_repo_id },
            ]),
            !repository_exists ==> r == Err::<Vec<ProjectEvent>, ProjectError>(
                ProjectError::GithubRepositoryNotFound(github_repo_id),
            ),
    {
        if !repository_exists {
            return Err(ProjectError::GithubRepositoryNotFound(github_repo_id));
        }
        let events = vec![ProjectEvent::Created { id, name, github_repo_id }];
        assert(project_facts(events@) =~= seq![
            ProjectFact::Created { id, name: name@, github_repo_id },
        ]);
        Ok(events)
    }

    /// Makes a user the leader of this project.
    pub fn assign_leader(&self, leader_id: UserId) -> (r: Vec<ProjectEvent>)
        ensures
            project_facts(r@) == seq![ProjectFact::LeaderAssigned { id: self.id, leader_id }],
    {
        let events = vec![ProjectEvent::LeaderAssigned { id: self.id, leader_id }];
        assert(project_facts(events@) =~= seq![
            ProjectFact::LeaderAssigned { id: self.id, leader_id },
        ]);
        events
    }
}

} // verus!
