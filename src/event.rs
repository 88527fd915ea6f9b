use vstd::prelude::*;
use crate::ids::{Amount, BudgetId, GithubRepositoryId, ProjectId, UserId};

verus! {

/// A fact emitted by the project aggregate.
#[derive(Debug)]
pub enum ProjectEvent {
    Created { id: ProjectId, name: String, github_repo_id: GithubRepositoryId },
    LeaderAssigned { id: ProjectId, leader_id: UserId },
}

/// What a project fact holds, with its name as characters.
pub enum ProjectFact {
    Created { id: ProjectId, name: Seq<char>, github_repo_id: GithubRepositoryId },
    LeaderAssigned { id: ProjectId, leader_id: UserId },
}

impl View for ProjectEvent {
    type V = ProjectFact;

    open spec fn view(&self) -> ProjectFact {
        match self {
            ProjectEvent::Created { id, name, github_repo_id } => ProjectFact::Created {
                id: *id,
                name: name@,
                github_repo_id: *github_repo_id,
            },
            ProjectEvent::LeaderAssigned { id, leader_id } => ProjectFact::LeaderAssigned {
                id: *id,
                leader_id: *leader_id,
            },
        }
    }
}

/// The entity a budget serves.
#[derive(Clone, Copy, Debug, PartialEq, Eq, Structural)]
pub enum BudgetTopic {
    Project(ProjectId),
}

/// A fact emitted by the budget aggregate.
#[derive(Clone, Copy, Debug, PartialEq, Eq, Structural)]
pub enum BudgetEvent {
    Allocated { id: BudgetId, topic: BudgetTopic, amount: Amount },
    SpenderAssigned { id: BudgetId, spender_id: UserId },
}

/// A fact of any aggregate, as it is enveloped and published.
#[derive(Debug)]
pub enum Event {
    Project(ProjectEvent),
    Budget(BudgetEvent),
}

/// What a fact of any aggregate holds.
pub enum Fact {
    Project(ProjectFact),
    Budget(BudgetEvent),
}

impl View for Event {
    type V = Fact;

    open spec fn view(&self) -> Fact {
        match self {
            Event::Project(e) => Fact::Project(e@),
            Event::Budget(e) => Fact::Budget(*e),
        }
    }
}

/// The contents of a sequence of project facts, in order.
pub open spec fn project_facts(s: Seq<ProjectEvent>) -> Seq<ProjectFact> {
    s.map_values(|e: ProjectEvent| e@)
}

/// The contents of a sequence of facts, in order.
pub open spec fn facts(s: Seq<Event>) -> Seq<Fact> {
    s.map_values(|e: Event| e@)
}

/// Project facts lifted to facts of any aggregate, in order.
pub open spec fn lift_project(s: Seq<ProjectFact>) -> Seq<Fact> {
    s.map_values(|f: ProjectFact| Fact::Project(f))
}

/// Budget facts lifted to facts of any aggregate, in order.
pub open spec fn lift_budget(s: Seq<BudgetEvent>) -> Seq<Fact> {
    s.map_values(|f: BudgetEvent| Fact::Budget(f))
}

impl ProjectEvent {
    /// Copies a project fact; the copy holds the same contents.
    pub fn duplicate(&self) -> (r: ProjectEvent)
        ensures
            r@ == self@,
    {
        match self {
            ProjectEvent::Created { id, name, github_repo_id } => ProjectEvent::Created {
                id: *id,
                name: name.clone(),
                github_repo_id: *github_repo_id,
            },
            ProjectEvent::LeaderAssigned { id, leader_id } => ProjectEvent::LeaderAssigned {
                id: *id,
                leader_id: *leader_id,
            },
        }
    }
}

impl Event {
    /// Copies a fact; the copy holds the same contents.
    pub fn duplicate(&self) -> (r: Event)
        ensures
            r@ == self@,
    {
        match self {
            Event::Project(e) => Event::Project(e.duplicate()),
            Event::Budget(e) => Event::Budget(*e),
        }
    }
}

/// Lifts project facts to facts of any aggregate, keeping their order.
pub fn from_project_events(events: &Vec<ProjectEvent>) -> (r: Vec<Event>)
    ensures
        facts(r@) == lift_project(project_facts(events@)),
{
    let mut r: Vec<Event> = Vec::new();
    let mut i: usize = 0;
    while i < events.len()
        invariant
            i <= events@.len(),
            r@.len() == i,
            forall|k: int| 0 <= k < i ==> #[trigger] r@[k]@ == Fact::Project(events@[k]@),
        decreases events@.len() - i,
    {
        r.push(Event::Project(events[i].duplicate()));
        i = i + 1;
    }
    assert(facts(r@) =~= lift_project(project_facts(events@)));
    r
}

/// Lifts budget facts to facts of any aggregate, keeping their order.
pub fn from_budget_events(events: &Vec<BudgetEvent>) -> (r: Vec<Event>)
    ensures
        facts(r@) == lift_budget(events@),
{
    let mut r: Vec<Event> = Vec::new();
    let mut i: usize = 0;
    while i < events.len()
        invariant
            i <= events@.len(),
            r@.len() == i,
            forall|k: int| 0 <= k < i ==> #[trigger] r@[k]@ == Fact::Budget(events@[k]),
        decreases events@.len() - i,
    {
        r.push(Event::Budget(events[i]));
        i = i + 1;
    }
    assert(facts(r@) =~= lift_budget(events@));
    r
}

} // verus!
