use aes_kernel::goals::command::CreateGoalCommand;
use aes_kernel::goals::constraint::{Constraint, ConstraintKind};
use aes_kernel::goals::errors::GoalError;
use aes_kernel::goals::goal::Goal;
use aes_kernel::goals::goal_id::GoalId;
use aes_kernel::goals::lifecycle::GoalState;
use aes_kernel::goals::manager::GoalManager;
use aes_kernel::goals::objective::Objective;
use aes_kernel::goals::repository::{GoalRepository, MemoryGoalRepository};
use aes_kernel::priority::Priority;
use aes_kernel::protocol::message::MessageType;
use aes_kernel::protocol::envelope::AespEnvelope;

fn sample_objective() -> Objective {
    Objective::new("Maximize long-term capital growth".to_string())
}

fn create_test_goal(name: &str) -> Goal {
    Goal::new(
        name.to_string(),
        "Test description".to_string(),
        Priority::Normal,
        Objective::new("Test objective".to_string()),
    )
    .unwrap()
}

/// Runs the manager's `handle` and publishes the returned event into `bus`,
/// as the kernel's service wrapper does.
fn handle_and_publish<R: GoalRepository>(
    manager: &mut GoalManager<R>,
    command: CreateGoalCommand,
    bus: &mut Vec<AespEnvelope>,
) -> Result<GoalId, GoalError> {
    let (id, event) = manager.handle(command)?;
    bus.push(event);
    Ok(id)
}

#[test]
fn test_goal_creation_valid() {
    let goal = Goal::new(
        "Grow Capital".to_string(),
        "Long-term capital growth objective".to_string(),
        Priority::High,
        sample_objective(),
    )
    .unwrap();

    assert_eq!(goal.name, "Grow Capital");
    assert_eq!(goal.state, GoalState::Draft);
    assert!(goal.constraints.is_empty());
}

#[test]
fn test_goal_creation_empty_name_fails() {
    let result = Goal::new("".to_string(), "desc".to_string(), Priority::Normal, sample_objective());
    assert!(result.is_err());
}

#[test]
fn test_with_constraint_builder() {
    let goal = Goal::new("Grow Capital".to_string(), "desc".to_string(), Priority::High, sample_objective())
        .unwrap()
        .with_constraint(Constraint::hard("Never violate Constitution".to_string()))
        .with_constraint(Constraint::soft("Respect mission deadlines".to_string()));

    assert_eq!(goal.constraints.len(), 2);
}

#[test]
fn test_valid_lifecycle_sequence() {
    let mut goal =
        Goal::new("Grow Capital".to_string(), "desc".to_string(), Priority::High, sample_objective()).unwrap();

    goal.transition_to(GoalState::Active).unwrap();
    assert!(goal.is_active());

    goal.transition_to(GoalState::Paused).unwrap();
    assert!(!goal.is_active());

    goal.transition_to(GoalState::Active).unwrap();
    goal.transition_to(GoalState::Completed).unwrap();
    goal.transition_to(GoalState::Archived).unwrap();

    assert_eq!(goal.state, GoalState::Archived);
}

#[test]
fn test_invalid_lifecycle_transition_rejected() {
    let mut goal =
        Goal::new("Grow Capital".to_string(), "desc".to_string(), Priority::High, sample_objective()).unwrap();

    // Draft -> Completed skips Active: refused, and the state stays.
    let result = goal.transition_to(GoalState::Completed);
    assert!(result.is_err());
    assert_eq!(goal.state, GoalState::Draft);
}

#[test]
fn test_blank_name_with_whitespace_is_refused() {
    let result = Goal::new(" \t\n ".to_string(), "desc".to_string(), Priority::Low, sample_objective());
    assert!(matches!(result, Err(GoalError::EmptyName)));
    let ok = Goal::new(" x ".to_string(), "desc".to_string(), Priority::Low, sample_objective());
    assert!(ok.is_ok());
}

#[test]
fn test_rejected_transition_error_names_both_states() {
    let mut goal = create_test_goal("G");
    match goal.transition_to(GoalState::Completed) {
        Err(e) => {
            assert_eq!(e.to_string(), "Invalid goal state transition: Draft -> Completed");
        }
        Ok(()) => panic!("transition should be refused"),
    }
}

#[test]
fn test_archived_goal_is_final() {
    let mut goal = create_test_goal("G");
    goal.transition_to(GoalState::Archived).unwrap();
    for next in [GoalState::Draft, GoalState::Active, GoalState::Paused, GoalState::Completed, GoalState::Archived] {
        assert!(goal.transition_to(next).is_err());
        assert_eq!(goal.state, GoalState::Archived);
    }
}

#[test]
fn test_every_transition_matches_the_lifecycle() {
    let states = [GoalState::Draft, GoalState::Active, GoalState::Paused, GoalState::Completed, GoalState::Archived];
    let allowed = [
        (GoalState::Draft, GoalState::Active),
        (GoalState::Draft, GoalState::Archived),
        (GoalState::Active, GoalState::Paused),
        (GoalState::Active, GoalState::Completed),
        (GoalState::Paused, GoalState::Active),
        (GoalState::Paused, GoalState::Archived),
        (GoalState::Completed, GoalState::Archived),
    ];
    for from in states {
        for to in states {
            let mut goal = create_test_goal("G");
            goal.state = from;
            let r = goal.transition_to(to);
            let expected = allowed.contains(&(from, to));
            assert_eq!(r.is_ok(), expected);
            assert_eq!(goal.state, if expected { to } else { from });
        }
    }
}

#[test]
fn test_state_labels() {
    assert_eq!(GoalState::Draft.to_string(), "DRAFT");
    assert_eq!(GoalState::Archived.to_string(), "ARCHIVED");
    assert_eq!(GoalState::Paused.name(), "Paused");
    assert_eq!(GoalError::EmptyName.to_string(), "Goal name cannot be empty");
    assert_eq!(Objective::new("Win".to_string()).to_string(), "Win");
}

#[test]
fn test_constraint_kinds() {
    assert_eq!(Constraint::hard("a".to_string()).kind, ConstraintKind::Hard);
    assert_eq!(Constraint::soft("b".to_string()).kind, ConstraintKind::Soft);
    assert_eq!(Constraint::soft("b".to_string()).description, "b");
}

#[test]
fn repository_test_insert_and_retrieve() {
    let mut repo = MemoryGoalRepository::new();
    let goal = create_test_goal("Grow Capital");
    let id = goal.id;
    repo.insert(goal).unwrap();
    assert_eq!(repo.count(), 1);
    assert!(repo.contains(&id));

    let retrieved = repo.get(&id).unwrap();
    assert_eq!(retrieved.name, "Grow Capital");
}

#[test]
fn repository_test_empty_repository() {
    let repo = MemoryGoalRepository::new();
    assert_eq!(repo.count(), 0);
    assert!(!repo.contains(&GoalId::new()));
    assert!(repo.iter().is_empty());
}

#[test]
fn test_duplicate_insert_overwrites() {
    let mut repo = MemoryGoalRepository::new();
    let mut goal = create_test_goal("Original");
    let id = goal.id;
    repo.insert(goal.clone()).unwrap();
    assert_eq!(repo.count(), 1);

    goal.name = "Updated".to_string();
    repo.insert(goal).unwrap();
    assert_eq!(repo.count(), 1);

    let retrieved = repo.get(&id).unwrap();
    assert_eq!(retrieved.name, "Updated");
}

#[test]
fn repository_test_iter() {
    let mut repo = MemoryGoalRepository::new();
    repo.insert(create_test_goal("G1")).unwrap();
    repo.insert(create_test_goal("G2")).unwrap();
    repo.insert(create_test_goal("G3")).unwrap();

    let names: Vec<String> = repo.iter().iter().map(|g| g.name.clone()).collect();
    assert_eq!(names.len(), 3);
    assert!(names.contains(&"G1".to_string()));
    assert!(names.contains(&"G2".to_string()));
    assert!(names.contains(&"G3".to_string()));
}

#[test]
fn test_handle_creates_stores_and_publishes() {
    let mut manager = GoalManager::new(MemoryGoalRepository::new());
    let mut published: Vec<AespEnvelope> = Vec::new();

    let command = CreateGoalCommand {
        name: "Grow Capital".to_string(),
        description: "Long-term capital growth".to_string(),
        priority: Priority::High,
        objective: Objective::new("Maximize long-term capital growth".to_string()),
        constraints: vec![Constraint::hard("Never violate Constitution".to_string())],
    };

    let id = handle_and_publish(&mut manager, command, &mut published).unwrap();
    assert_eq!(manager.count(), 1);
    assert_eq!(published.len(), 1);
    assert!(manager.names().contains(&"Grow Capital".to_string()));
    let event = &published[0];

    assert_eq!(event.topic.as_str(), "goal.created");
    assert_eq!(event.source, "goal_manager");
    assert_eq!(event.message_type, MessageType::Event);
    let payload: serde_json::Value = serde_json::from_str(&event.payload).unwrap();
    assert_eq!(payload["goal_id"], id.to_string());
    assert_eq!(payload["name"], "Grow Capital");
    assert_eq!(payload["priority"], "HIGH");
}

#[test]
fn test_handle_rejects_empty_name() {
    let mut manager = GoalManager::new(MemoryGoalRepository::new());
    let mut published: Vec<AespEnvelope> = Vec::new();

    let command = CreateGoalCommand {
        name: "".to_string(),
        description: "desc".to_string(),
        priority: Priority::Normal,
        objective: Objective::new("obj".to_string()),
        constraints: vec![],
    };

    let result = handle_and_publish(&mut manager, command, &mut published);
    assert!(result.is_err());
    assert_eq!(manager.count(), 0);
    assert!(published.is_empty());
}

#[test]
fn test_handle_event_carries_priority_label() {
    let mut manager = GoalManager::new(MemoryGoalRepository::new());
    let command = CreateGoalCommand {
        name: "G".to_string(),
        description: "d".to_string(),
        priority: Priority::Critical,
        objective: Objective::new("o".to_string()),
        constraints: vec![Constraint::hard("first".to_string()), Constraint::soft("second".to_string())],
    };
    let (_id, event) = manager.handle(command).unwrap();
    let payload: serde_json::Value = serde_json::from_str(&event.payload).unwrap();
    assert_eq!(payload["priority"], "CRITICAL");
    assert_eq!(manager.names(), vec!["G".to_string()]);
}

#[test]
fn test_goal_id_text_is_hyphenated() {
    let id = GoalId(0x0123456789abcdef0123456789abcdef);
    assert_eq!(id.to_string(), "01234567-89ab-cdef-0123-456789abcdef");
}

#[test]
fn test_names_are_listed_in_a_stable_order() {
    let mut manager = GoalManager::new(MemoryGoalRepository::new());
    for n in ["A", "B", "C", "D"] {
        let command = CreateGoalCommand {
            name: n.to_string(),
            description: "d".to_string(),
            priority: Priority::Low,
            objective: Objective::new("o".to_string()),
            constraints: vec![],
        };
        manager.handle(command).unwrap();
    }
    assert_eq!(manager.count(), 4);
    let first = manager.names();
    assert_eq!(first.len(), 4);
    assert_eq!(manager.names(), first);
    let blank = CreateGoalCommand {
        name: " \t ".to_string(),
        description: "d".to_string(),
        priority: Priority::Low,
        objective: Objective::new("o".to_string()),
        constraints: vec![],
    };
    assert!(matches!(manager.handle(blank), Err(GoalError::EmptyName)));
    assert_eq!(manager.names(), first);
    assert_eq!(manager.count(), 4);
}

#[test]
fn test_created_records_get_version_4_ids() {
    let g = create_test_goal("G");
    assert_eq!(uuid::Uuid::from_u128(g.id.0).get_version_num(), 4);
    let m = aes_kernel::mission::mission::Mission::new("M", Priority::Low, "{}".to_string());
    assert_eq!(uuid::Uuid::from_u128(m.id).get_version_num(), 4);
    let e = aes_kernel::knowledge::evidence::Evidence::standalone("x".to_string());
    assert_eq!(uuid::Uuid::from_u128(e.id).get_version_num(), 4);
    assert_eq!((e.id >> 62) & 0x3, 2);
}
