use vstd::prelude::*;
use crate::budget::Budget;
use crate::envelope::{encode_fact, envelope_all, payloads, UniqueMessage};
use crate::event::{
    facts, from_budget_events, from_project_events, BudgetEvent, BudgetTopic, Event, Fact,
    project_facts, ProjectFact,
};
use crate::ids::{Amount, BudgetId, GithubRepositoryId, IdSource, ProjectId, UserId};
use crate::project::{Project, ProjectError};

verus! {

/// Why a "create project" transaction did not complete.
#[derive(Clone, Copy, Debug, PartialEq, Eq, Structural)]
pub enum DomainError {
    /// The request was refused before any fact was produced.
    InvalidInputs,
    /// The batch of facts could not be published; it may not have been accepted.
    PublishFailed,
    /// The facts were published, but the project's details were not stored.
    DetailsNotStored,
}

/// Descriptive details of a project, kept beside its facts and overwritten
/// as a whole.
#[derive(Debug)]
pub struct ProjectDetails {
    pub project_id: ProjectId,
    pub description: Option<String>,
    pub telegram_link: Option<String>,
    pub logo_url: Option<String>,
}

/// The characters of an optional text.
pub open spec fn text_of(t: Option<String>) -> Option<Seq<char>> {
    match t {
        Some(s) => Some(s@),
        None => None,
    }
}

fn copy_text(t: &Option<String>) -> (r: Option<String>)
    ensures
        text_of(r) == text_of(*t),
{
    match t {
        Some(s) => Some(s.clone()),
        None => None,
    }
}

/// Where a "create project" transaction stands.
#[derive(Clone, Copy, Debug, PartialEq, Eq, Structural)]
pub enum Phase {
    /// Waiting for the platform to say whether the repository exists.
    CheckingRepository,
    /// Waiting for the batch of facts to be published.
    Publishing,
    /// Waiting for the project's details to be stored.
    StoringDetails,
    Finished,
}

/// What the caller is to do next for a transaction.
#[derive(Debug)]
pub enum Action {
    /// Ask the platform whether this repository exists.
    CheckRepository(GithubRepositoryId),
    /// Publish this batch, in this order, in one call.
    Publish(Vec<UniqueMessage>),
    /// Store these details, overwriting any held for the project.
    StoreDetails(ProjectDetails),
    /// The transaction is over, with this result.
    Finish(Result<ProjectId, DomainError>),
}

/// What came of the last action.
#[derive(Clone, Copy, Debug, PartialEq, Eq, Structural)]
pub enum Feedback {
    RepositoryChecked { exists: bool },
    Published { ok: bool },
    DetailsStored { ok: bool },
}

/// The facts that creating a project emits, in order: the project is created,
/// its leader assigned, its budget allocated, and the leader made the budget's
/// spender.
pub open spec fn creation_facts(
    project_id: ProjectId,
    budget_id: BudgetId,
    name: Seq<char>,
    github_repo_id: GithubRepositoryId,
    initial_budget: Amount,
    user_id: UserId,
) -> Seq<Fact> {
    seq![
        Fact::Project(ProjectFact::Created { id: project_id, name, github_repo_id }),
        Fact::Project(ProjectFact::LeaderAssigned { id: project_id, leader_id: user_id }),
        Fact::Budget(
            BudgetEvent::Allocated {
                id: budget_id,
                topic: BudgetTopic::Project(project_id),
                amount: initial_budget,
            },
        ),
        Fact::Budget(BudgetEvent::SpenderAssigned { id: budget_id, spender_id: user_id }),
    ]
}

/// Each envelope of the batch carries the identity derived from its fact.
pub open spec fn well_enveloped(batch: Seq<UniqueMessage>) -> bool {
    forall|k: int| 0 <= k < batch.len() ==> #[trigger] batch[k].id@ == encode_fact(batch[k].payload@)
}

/// Creates a project led by `leader_id`; `repository_exists` is the platform's
/// answer for `github_repo_id`.
pub fn create_leaded_project(
    repository_exists: bool,
    project_id: ProjectId,
    leader_id: UserId,
    name: String,
    github_repo_id: GithubRepositoryId,
) -> (r: Result<Vec<Event>, ProjectError>)
    ensures
        repository_exists ==> (r matches Ok(events) && facts(events@) == seq![
            Fact::Project(ProjectFact::Created { id: project_id, name: name@, github_repo_id }),
            Fact::Project(ProjectFact::LeaderAssigned { id: project_id, leader_id }),
        ]),
        !repository_exists ==> r == Err::<Vec<Event>, ProjectError>(
            ProjectError::GithubRepositoryNotFound(github_repo_id),
        ),
{
    let ghost text = name@;
    let mut events = match Project::create(repository_exists, project_id, name, github_repo_id) {
        Ok(events) => events,
        Err(e) => {
            return Err(e);
        },
    };
    let project = Project::from_events(&events);
    proof {
        let s = project_facts(events@);
        assert(s.drop_last() =~= Seq::<ProjectFact>::empty());
    }
    let mut leader = project.assign_leader(leader_id);
    let ghost created = events@;
    let ghost assigned = leader@;
    events.append(&mut leader);
    proof {
        assert(project_facts(created).len() == 1);
        assert(project_facts(assigned).len() == 1);
        assert(project_facts(created)[0] == created[0]@);
        assert(project_facts(assigned)[0] == assigned[0]@);
        assert(project.id == project_id);
        assert(events@[0] == created[0]);
        assert(events@[1] == assigned[0]);
        assert(project_facts(events@) =~= seq![
            ProjectFact::Created { id: project_id, name: text, github_repo_id },
            ProjectFact::LeaderAssigned { id: project_id, leader_id },
        ]);
    }
    let r = from_project_events(&events);
    assert(facts(r@) =~= seq![
        Fact::Project(ProjectFact::Created { id: project_id, name: text, github_repo_id }),
        Fact::Project(ProjectFact::LeaderAssigned { id: project_id, leader_id }),
    ]);
    Ok(r)
}

/// Allocates a budget of `initial_budget` to a project and makes `owner_id`
/// its one spender.
pub fn allocate_owned_budget(
    budget_id: BudgetId,
    project_id: ProjectId,
    owner_id: UserId,
    initial_budget: Amount,
) -> (r: Vec<Event>)
    ensures
        facts(r@) == seq![
            Fact::Budget(
                BudgetEvent::Allocated {
                    id: budget_id,
                    topic: BudgetTopic::Project(project_id),
                    amount: initial_budget,
                },
            ),
            Fact::Budget(BudgetEvent::SpenderAssigned { id: budget_id, spender_id: owner_id }),
        ],
{
    let mut events = Budget::allocate(budget_id, BudgetTopic::Project(project_id), initial_budget);
    let budget = Budget::from_events(&events);
    assert(events@.drop_last() =~= Seq::<BudgetEvent>::empty());
    let mut spender = budget.assign_spender(&owner_id);
    events.append(&mut spender);
    let r = from_budget_events(&events);
    assert(facts(r@) =~= seq![
        Fact::Budget(
            BudgetEvent::Allocated {
                id: budget_id,
                topic: BudgetTopic::Project(project_id),
                amount: initial_budget,
            },
        ),
        Fact::Budget(BudgetEvent::SpenderAssigned { id: budget_id, spender_id: owner_id }),
    ]);
    r
}

/// Runs "create project" transactions. It hands out the identities of the new
/// aggregates; the caller performs each step's outside call and reports back.
pub struct Usecase {
    ids: IdSource,
}

/// One "create project" transaction in progress.
#[derive(Debug)]
pub struct Creation {
    pub project_id: ProjectId,
    pub budget_id: BudgetId,
    pub name: String,
    pub initial_budget: Amount,
    pub github_repo_id: GithubRepositoryId,
    pub description: Option<String>,
    pub telegram_link: Option<String>,
    pub user_id: UserId,
    pub logo_url: Option<String>,
    pub phase: Phase,
}

impl Usecase {
    pub closed spec fn wf(&self) -> bool {
        self.ids.wf()
    }

    /// The identities handed out so far, to projects and budgets alike.
    pub closed spec fn issued(&self) -> Set<u64> {
        self.ids.issued()
    }

    pub closed spec fn spec_can_create(&self) -> bool {
        self.ids.upcoming() < u64::MAX - 1
    }

    /// A use case whose first identity is `first_id`.
    pub fn new(first_id: u64) -> (r: Usecase)
        ensures
            r.wf(),
            r.issued() == Set::<u64>::empty(),
            r.spec_can_create() == (first_id < u64::MAX - 1),
    {
        Usecase { ids: IdSource::new(first_id) }
    }

    /// Whether identities remain for another transaction.
    pub fn can_create(&self) -> (r: bool)
        ensures
            r == self.spec_can_create(),
    {
        self.ids.has_next() && self.ids.upcoming_is_below(u64::MAX - 1)
    }

    /// Starts creating a project called `name`, tracking `github_repo_id`, led
    /// by `user_id`, with a budget of `initial_budget`. The new project and
    /// budget get identities never handed out before.
    pub fn create(
        &mut self,
        name: String,
        initial_budget: Amount,
        github_repo_id: GithubRepositoryId,
        description: Option<String>,
        telegram_link: Option<String>,
        user_id: UserId,
        logo_url: Option<String>,
    ) -> (r: Creation)
        requires
            old(self).wf(),
            old(self).spec_can_create(),
        ensures
            final(self).wf(),
            !old(self).issued().contains(r.project_id.value),
            !old(self).issued().contains(r.budget_id.value),
            r.project_id.value != r.budget_id.value,
            final(self).issued() == old(self).issued().insert(r.project_id.value).insert(
                r.budget_id.value,
            ),
            r.phase == Phase::CheckingRepository,
            r.name@ == name@,
            r.initial_budget == initial_budget,
            r.github_repo_id == github_repo_id,
            text_of(r.description) == text_of(description),
            text_of(r.telegram_link) == text_of(telegram_link),
            r.user_id == user_id,
            text_of(r.logo_url) == text_of(logo_url),
    {
        let project_id = ProjectId { value: self.ids.next_id() };
        let budget_id = BudgetId { value: self.ids.next_id() };
        Creation {
            project_id,
            budget_id,
            name,
            initial_budget,
            github_repo_id,
            description,
            telegram_link,
            user_id,
            logo_url,
            phase: Phase::CheckingRepository,
        }
    }
}

/// The feedback that answers the action of a phase.
pub open spec fn answers(phase: Phase, feedback: Feedback) -> bool {
    match phase {
        Phase::CheckingRepository => feedback is RepositoryChecked,
        Phase::Publishing => feedback is Published,
        Phase::StoringDetails => feedback is DetailsStored,
        Phase::Finished => false,
    }
}

impl Creation {
    /// The transaction's request, which no step changes.
    pub open spec fn same_request(&self, other: &Creation) -> bool {
        &&& other.project_id == self.project_id
        &&& other.budget_id == self.budget_id
        &&& other.name@ == self.name@
        &&& other.initial_budget == self.initial_budget
        &&& other.github_repo_id == self.github_repo_id
        &&& other.user_id == self.user_id
    }

    /// The facts this transaction emits once the repository is known to exist.
    pub open spec fn spec_facts(&self) -> Seq<Fact> {
        creation_facts(
            self.project_id,
            self.budget_id,
            self.name@,
            self.github_repo_id,
            self.initial_budget,
            self.user_id,
        )
    }

    /// Whether `feedback` answers the action this transaction waits on.
    pub fn expects(&self, feedback: Feedback) -> (r: bool)
        ensures
            r == answers(self.phase, feedback),
    {
        match (self.phase, feedback) {
            (Phase::CheckingRepository, Feedback::RepositoryChecked { .. }) => true,
            (Phase::Publishing, Feedback::Published { .. }) => true,
            (Phase::StoringDetails, Feedback::DetailsStored { .. }) => true,
            _ => false,
        }
    }

    /// The first action: the one outside call that must come before any fact.
    pub fn start(&self) -> (r: Action)
        ensures
            r == Action::CheckRepository(self.github_repo_id),
    {
        Action::CheckRepository(self.github_repo_id)
    }

    /// Moves the transaction on by what came of its last action, and says what
    /// to do next.
    ///
    /// A missing repository ends it with `InvalidInputs` and no fact. Else the
    /// four facts are published as one batch, in emission order; after that
    /// succeeds the details are stored, and after that the project's identity
    /// is the result. A failed publish or store ends it with its own error.
    pub fn step(&mut self, feedback: Feedback) -> (r: Action)
        requires
            answers(old(self).phase, feedback),
        ensures
            old(self).same_request(final(self)),
            feedback == (Feedback::RepositoryChecked { exists: false }) ==> (final(self).phase
                == Phase::Finished && r == Action::Finish(
                Err::<ProjectId, DomainError>(DomainError::InvalidInputs),
            )),
            feedback == (Feedback::RepositoryChecked { exists: true }) ==> (final(self).phase
                == Phase::Publishing && (r matches Action::Publish(batch) && payloads(batch@)
                == old(self).spec_facts() && well_enveloped(batch@))),
            feedback == (Feedback::Published { ok: false }) ==> (final(self).phase
                == Phase::Finished && r == Action::Finish(
                Err::<ProjectId, DomainError>(DomainError::PublishFailed),
            )),
            feedback == (Feedback::Published { ok: true }) ==> (final(self).phase
                == Phase::StoringDetails && (r matches Action::StoreDetails(d) && d.project_id
                == old(self).project_id && text_of(d.description) == text_of(
                old(self).description,
            ) && text_of(d.telegram_link) == text_of(old(self).telegram_link) && text_of(
                d.logo_url,
            ) == text_of(old(self).logo_url))),
            feedback == (Feedback::DetailsStored { ok: false }) ==> (final(self).phase
                == Phase::Finished && r == Action::Finish(
                Err::<ProjectId, DomainError>(DomainError::DetailsNotStored),
            )),
            feedback == (Feedback::DetailsStored { ok: true }) ==> (final(self).phase
                == Phase::Finished && r == Action::Finish(
                Ok::<ProjectId, DomainError>(old(self).project_id),
            )),
    {
        match feedback {
            Feedback::RepositoryChecked { exists } => {
                let created = create_leaded_project(
                    exists,
                    self.project_id,
                    self.user_id,
                    self.name.clone(),
                    self.github_repo_id,
                );
                match created {
                    Err(_) => {
                        self.phase = Phase::Finished;
                        Action::Finish(Err(DomainError::InvalidInputs))
                    },
                    Ok(mut events) => {
                        let mut budget = allocate_owned_budget(
                            self.budget_id,
                            self.project_id,
                            self.user_id,
                            self.initial_budget,
                        );
                        let ghost first = events@;
                        let ghost second = budget@;
                        events.append(&mut budget);
                        proof {
                            assert(facts(first).len() == 2);
                            assert(facts(second).len() == 2);
                            assert(facts(first)[0] == first[0]@);
                            assert(facts(first)[1] == first[1]@);
                            assert(facts(second)[0] == second[0]@);
                            assert(facts(second)[1] == second[1]@);
                            assert(facts(events@) =~= self.spec_facts());
                        }
                        let batch = envelope_all(&events);
                        assert(payloads(batch@) =~= facts(events@));
                        self.phase = Phase::Publishing;
                        Action::Publish(batch)
                    },
                }
            },
            Feedback::Published { ok } => {
                if ok {
                    self.phase = Phase::StoringDetails;
                    Action::StoreDetails(
                        ProjectDetails {
                            project_id: self.project_id,
                            description: copy_text(&self.description),
                            telegram_link: copy_text(&self.telegram_link),
                            logo_url: copy_text(&self.logo_url),
                        },
                    )
                } else {
                    self.phase = Phase::Finished;
                    Action::Finish(Err(DomainError::PublishFailed))
                }
            },
            Feedback::DetailsStored { ok } => {
                self.phase = Phase::Finished;
                if ok {
                    Action::Finish(Ok(self.project_id))
                } else {
                    Action::Finish(Err(DomainError::DetailsNotStored))
                }
            },
        }
    }
}

} // verus!
