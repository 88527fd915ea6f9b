use marketplace_core::budget::Budget;
use marketplace_core::envelope::UniqueMessage;
use marketplace_core::event::{BudgetEvent, BudgetTopic, Event, ProjectEvent};
use marketplace_core::ids::{BudgetId, GithubRepositoryId, IdSource, ProjectId, UserId};
use marketplace_core::project::{Project, ProjectError};
use marketplace_core::usecase::{
    allocate_owned_budget, create_leaded_project, Action, Creation, DomainError, Feedback, Phase,
    Usecase,
};

fn start(usecase: &mut Usecase, name: &str, amount: u64, repo: u64, user: u64) -> Creation {
    let creation = usecase.create(
        name.to_string(),
        amount,
        GithubRepositoryId { value: repo },
        Some("a description".to_string()),
        None,
        UserId { value: user },
        Some("https://logo".to_string()),
    );
    assert_eq!(creation.phase, Phase::CheckingRepository);
    creation
}

#[test]
fn create_project_emits_four_facts_in_order() {
    let mut usecase = Usecase::new(1);
    let mut creation = start(&mut usecase, "Foo", 100, 42, 7);
    let project_id = creation.project_id;
    let budget_id = creation.budget_id;
    assert_ne!(project_id.value, budget_id.value);
    match creation.start() {
        Action::CheckRepository(repo) => assert_eq!(repo, GithubRepositoryId { value: 42 }),
        other => panic!("unexpected action {:?}", other),
    }
    let batch = match creation.step(Feedback::RepositoryChecked { exists: true }) {
        Action::Publish(batch) => batch,
        other => panic!("unexpected action {:?}", other),
    };
    assert_eq!(batch.len(), 4);
    match &batch[0].payload {
        Event::Project(ProjectEvent::Created { id, name, github_repo_id }) => {
            assert_eq!(*id, project_id);
            assert_eq!(name, "Foo");
            assert_eq!(github_repo_id.value, 42);
        },
        other => panic!("unexpected fact {:?}", other),
    }
    match &batch[1].payload {
        Event::Project(ProjectEvent::LeaderAssigned { id, leader_id }) => {
            assert_eq!(*id, project_id);
            assert_eq!(leader_id.value, 7);
        },
        other => panic!("unexpected fact {:?}", other),
    }
    match &batch[2].payload {
        Event::Budget(e) => assert_eq!(
            *e,
            BudgetEvent::Allocated {
                id: budget_id,
                topic: BudgetTopic::Project(project_id),
                amount: 100
            }
        ),
        other => panic!("unexpected fact {:?}", other),
    }
    match &batch[3].payload {
        Event::Budget(e) => assert_eq!(
            *e,
            BudgetEvent::SpenderAssigned { id: budget_id, spender_id: UserId { value: 7 } }
        ),
        other => panic!("unexpected fact {:?}", other),
    }
    assert_eq!(creation.phase, Phase::Publishing);
    match creation.step(Feedback::Published { ok: true }) {
        Action::StoreDetails(details) => {
            assert_eq!(details.project_id, project_id);
            assert_eq!(details.description.as_deref(), Some("a description"));
            assert_eq!(details.telegram_link, None);
            assert_eq!(details.logo_url.as_deref(), Some("https://logo"));
        },
        other => panic!("unexpected action {:?}", other),
    }
    match creation.step(Feedback::DetailsStored { ok: true }) {
        Action::Finish(result) => assert_eq!(result, Ok(project_id)),
        other => panic!("unexpected action {:?}", other),
    }
    assert_eq!(creation.phase, Phase::Finished);
}

#[test]
fn each_creation_gets_fresh_identities() {
    let mut usecase = Usecase::new(1);
    let mut seen = std::collections::HashSet::new();
    for _ in 0..50 {
        let creation = start(&mut usecase, "Foo", 100, 42, 7);
        assert!(seen.insert(creation.project_id.value));
        assert!(seen.insert(creation.budget_id.value));
    }
}

#[test]
fn missing_repository_is_invalid_input_without_facts() {
    let mut usecase = Usecase::new(1);
    let mut creation = start(&mut usecase, "Foo", 100, 43, 7);
    match creation.step(Feedback::RepositoryChecked { exists: false }) {
        Action::Finish(result) => assert_eq!(result, Err(DomainError::InvalidInputs)),
        other => panic!("unexpected action {:?}", other),
    }
    assert_eq!(creation.phase, Phase::Finished);
    let refused = Project::create(
        false,
        ProjectId { value: 1 },
        "Foo".to_string(),
        GithubRepositoryId { value: 43 },
    );
    assert_eq!(
        refused.err(),
        Some(ProjectError::GithubRepositoryNotFound(GithubRepositoryId { value: 43 }))
    );
    let leaded = create_leaded_project(
        false,
        ProjectId { value: 1 },
        UserId { value: 7 },
        "Foo".to_string(),
        GithubRepositoryId { value: 43 },
    );
    assert!(leaded.is_err());
}

#[test]
fn publish_failure_ends_with_its_own_error() {
    let mut usecase = Usecase::new(1);
    let mut creation = start(&mut usecase, "Foo", 100, 42, 7);
    creation.step(Feedback::RepositoryChecked { exists: true });
    assert!(creation.expects(Feedback::Published { ok: false }));
    assert!(!creation.expects(Feedback::DetailsStored { ok: true }));
    match creation.step(Feedback::Published { ok: false }) {
        Action::Finish(result) => assert_eq!(result, Err(DomainError::PublishFailed)),
        other => panic!("unexpected action {:?}", other),
    }
}

#[test]
fn details_failure_ends_with_its_own_error() {
    let mut usecase = Usecase::new(1);
    let mut creation = start(&mut usecase, "Foo", 100, 42, 7);
    creation.step(Feedback::RepositoryChecked { exists: true });
    creation.step(Feedback::Published { ok: true });
    match creation.step(Feedback::DetailsStored { ok: false }) {
        Action::Finish(result) => assert_eq!(result, Err(DomainError::DetailsNotStored)),
        other => panic!("unexpected action {:?}", other),
    }
}

#[test]
fn identities_run_out_at_the_largest_value() {
    let usecase = Usecase::new(u64::MAX - 1);
    assert!(!usecase.can_create());
    let usecase = Usecase::new(u64::MAX - 2);
    assert!(usecase.can_create());
    let mut ids = IdSource::new(5);
    assert_eq!(ids.next_id(), 5);
    assert_eq!(ids.next_id(), 6);
    assert!(IdSource::new(u64::MAX - 1).has_next());
    assert!(!IdSource::new(u64::MAX).has_next());
}

#[test]
fn project_fold_is_deterministic() {
    let mut events = Project::create(
        true,
        ProjectId { value: 3 },
        "Bar".to_string(),
        GithubRepositoryId { value: 9 },
    )
    .unwrap();
    let project = Project::from_events(&events);
    assert_eq!(project.leader_id, None);
    events.extend(project.assign_leader(UserId { value: 11 }));
    let first = Project::from_events(&events);
    let second = Project::from_events(&events);
    assert_eq!(first.id, ProjectId { value: 3 });
    assert_eq!(first.name, "Bar");
    assert_eq!(first.github_repo_id, GithubRepositoryId { value: 9 });
    assert_eq!(first.leader_id, Some(UserId { value: 11 }));
    assert_eq!(first.id, second.id);
    assert_eq!(first.name, second.name);
    assert_eq!(first.leader_id, second.leader_id);
}

#[test]
fn budget_fold_and_zero_allocation() {
    let mut events = Budget::allocate(
        BudgetId { value: 4 },
        BudgetTopic::Project(ProjectId { value: 3 }),
        0,
    );
    let budget = Budget::from_events(&events);
    assert_eq!(budget.remaining_amount, 0);
    assert_eq!(budget.topic, Some(BudgetTopic::Project(ProjectId { value: 3 })));
    events.extend(budget.assign_spender(&UserId { value: 5 }));
    events.extend(budget.assign_spender(&UserId { value: 5 }));
    assert_eq!(events.len(), 3);
    let budget = Budget::from_events(&events);
    assert_eq!(budget.spenders, vec![UserId { value: 5 }, UserId { value: 5 }]);
    assert_eq!(Budget::from_events(&Vec::new()).topic, None);
}

#[test]
fn owned_budget_has_owner_as_spender() {
    let events =
        allocate_owned_budget(BudgetId { value: 8 }, ProjectId { value: 3 }, UserId { value: 5 }, 250);
    assert_eq!(events.len(), 2);
    match (&events[0], &events[1]) {
        (Event::Budget(a), Event::Budget(b)) => {
            assert_eq!(
                *a,
                BudgetEvent::Allocated {
                    id: BudgetId { value: 8 },
                    topic: BudgetTopic::Project(ProjectId { value: 3 }),
                    amount: 250
                }
            );
            assert_eq!(
                *b,
                BudgetEvent::SpenderAssigned { id: BudgetId { value: 8 }, spender_id: UserId { value: 5 } }
            );
        },
        other => panic!("unexpected facts {:?}", other),
    }
}

#[test]
fn envelope_identity_is_the_fact_encoding() {
    let message = UniqueMessage::new(Event::Project(ProjectEvent::LeaderAssigned {
        id: ProjectId { value: 0x0102 },
        leader_id: UserId { value: 5 },
    }));
    assert_eq!(
        message.id,
        vec![1, 0x02, 0x01, 0, 0, 0, 0, 0, 0, 5, 0, 0, 0, 0, 0, 0, 0]
    );
    let created = UniqueMessage::new(Event::Project(ProjectEvent::Created {
        id: ProjectId { value: 1 },
        name: "é".to_string(),
        github_repo_id: GithubRepositoryId { value: 2 },
    }));
    assert_eq!(
        created.id,
        vec![0, 1, 0, 0, 0, 0, 0, 0, 0, 2, 0, 0, 0, 0, 0, 0, 0, 0xc3, 0xa9]
    );
}

#[test]
fn identical_facts_share_identity_and_distinct_ones_never_do() {
    let fact = |seed: u64| -> Event {
        match seed % 4 {
            0 => Event::Project(ProjectEvent::Created {
                id: ProjectId { value: seed / 4 },
                name: format!("p{}", seed % 7),
                github_repo_id: GithubRepositoryId { value: seed % 5 },
            }),
            1 => Event::Project(ProjectEvent::LeaderAssigned {
                id: ProjectId { value: seed / 4 },
                leader_id: UserId { value: seed % 3 },
            }),
            2 => Event::Budget(BudgetEvent::Allocated {
                id: BudgetId { value: seed / 4 },
                topic: BudgetTopic::Project(ProjectId { value: seed % 11 }),
                amount: seed % 13,
            }),
            _ => Event::Budget(BudgetEvent::SpenderAssigned {
                id: BudgetId { value: seed / 4 },
                spender_id: UserId { value: seed % 17 },
            }),
        }
    };
    assert_eq!(UniqueMessage::new(fact(12345)).id, UniqueMessage::new(fact(12345)).id);
    let mut state: u64 = 0x2545f4914f6cdd1d;
    let mut seen = std::collections::HashMap::new();
    for _ in 0..20000 {
        state ^= state << 13;
        state ^= state >> 7;
        state ^= state << 17;
        let seed = state % 1_000_000;
        let id = UniqueMessage::new(fact(seed)).id;
        if let Some(previous) = seen.insert(id, seed) {
            assert_eq!(previous, seed);
        }
    }
}
