use aes_kernel::knowledge::category::KnowledgeCategory;
use aes_kernel::knowledge::command::StoreKnowledgeCommand;
use aes_kernel::knowledge::errors::KnowledgeError;
use aes_kernel::knowledge::event_handler::handle_mission_completed;
use aes_kernel::knowledge::evidence::Evidence;
use aes_kernel::knowledge::knowledge::Knowledge;
use aes_kernel::knowledge::manager::KnowledgeManager;
use aes_kernel::knowledge::repository::{KnowledgeRepository, MemoryKnowledgeRepository};
use aes_kernel::knowledge::source::KnowledgeSource;
use aes_kernel::mission::executor::MissionExecutor;
use aes_kernel::mission::mission::Mission;
use aes_kernel::mission::state::MissionState;
use aes_kernel::priority::Priority;
use aes_kernel::protocol::envelope::{create_event, AespEnvelope};

fn create_test_knowledge(title: &str) -> Knowledge {
    let evidence = Evidence::standalone("Test evidence".to_string());
    Knowledge::from_evidence(
        title.to_string(),
        KnowledgeCategory::Technical,
        KnowledgeSource::ManualInput,
        evidence,
    )
    .unwrap()
}

fn object(fields: &[(&str, &str)]) -> String {
    let mut map = serde_json::Map::new();
    for (k, v) in fields {
        map.insert(k.to_string(), serde_json::Value::String(v.to_string()));
    }
    serde_json::Value::Object(map).to_string()
}

/// Runs the manager's `handle` and publishes the returned event into `bus`,
/// as the kernel's service wrapper does.
fn handle_and_publish<R: KnowledgeRepository>(
    manager: &mut KnowledgeManager<R>,
    command: StoreKnowledgeCommand,
    bus: &mut Vec<AespEnvelope>,
) -> Result<u128, KnowledgeError> {
    let (id, event) = manager.handle(command)?;
    bus.push(event);
    Ok(id)
}

#[test]
fn test_insert_and_retrieve() {
    let mut repo = MemoryKnowledgeRepository::new();
    let knowledge = create_test_knowledge("Test Knowledge");
    let id = knowledge.id;
    repo.insert(knowledge).unwrap();
    assert_eq!(repo.count(), 1);
    assert!(repo.contains(&id));

    let retrieved = repo.get(&id).unwrap();
    assert_eq!(retrieved.title, "Test Knowledge");
}

#[test]
fn test_empty_repository() {
    let repo = MemoryKnowledgeRepository::new();
    assert_eq!(repo.count(), 0);
    assert!(!repo.contains(&uuid::Uuid::new_v4().as_u128()));
    assert!(repo.iter().is_empty());
}

#[test]
fn test_duplicate_insert() {
    let mut repo = MemoryKnowledgeRepository::new();
    let mut knowledge = create_test_knowledge("Original");
    let id = knowledge.id;
    repo.insert(knowledge.clone()).unwrap();
    assert_eq!(repo.count(), 1);

    // Same identifier again: the record is overwritten.
    knowledge.title = "Updated".to_string();
    repo.insert(knowledge).unwrap();

    assert_eq!(repo.count(), 1);
    let retrieved = repo.get(&id).unwrap();
    assert_eq!(retrieved.title, "Updated");
}

#[test]
fn test_iter() {
    let mut repo = MemoryKnowledgeRepository::new();
    repo.insert(create_test_knowledge("K1")).unwrap();
    repo.insert(create_test_knowledge("K2")).unwrap();
    repo.insert(create_test_knowledge("K3")).unwrap();

    let titles: Vec<String> = repo.iter().iter().map(|k| k.title.clone()).collect();
    assert_eq!(titles.len(), 3);
    assert!(titles.contains(&"K1".to_string()));
    assert!(titles.contains(&"K2".to_string()));
    assert!(titles.contains(&"K3".to_string()));
}

#[test]
fn test_handle_stores_and_publishes() {
    let mut manager = KnowledgeManager::new(MemoryKnowledgeRepository::new());
    let mut published: Vec<AespEnvelope> = Vec::new();

    let evidence = Evidence::standalone("test evidence".to_string());
    let command = StoreKnowledgeCommand {
        title: "Test".to_string(),
        category: KnowledgeCategory::Technical,
        source: KnowledgeSource::ManualInput,
        evidence,
    };

    let id = handle_and_publish(&mut manager, command, &mut published).unwrap();
    assert_eq!(manager.count(), 1);
    assert_eq!(published.len(), 1);
    let event = &published[0];
    assert!(manager.titles().contains(&"Test".to_string()));

    assert_eq!(event.topic.as_str(), "knowledge.created");
    assert_eq!(event.source, "knowledge_manager");
    let payload: serde_json::Value = serde_json::from_str(&event.payload).unwrap();
    assert_eq!(payload["knowledge_id"], uuid::Uuid::from_u128(id).to_string());
    assert_eq!(payload["category"], "TECHNICAL");
    assert_eq!(payload["title"], "Test");
}

#[test]
fn test_handle_mission_completed_valid_payload() {
    let payload = object(&[
        ("mission_id", &uuid::Uuid::new_v4().to_string()),
        ("name", "SystemHealthCheck"),
        ("state", "COMPLETED"),
        ("report", "All systems nominal"),
    ]);
    let env = create_event("executor", "mission.completed", payload);
    let command = handle_mission_completed(&env).unwrap();
    assert_eq!(command.title, "Mission completed: SystemHealthCheck");
    assert_eq!(command.evidence.content, "All systems nominal");
}

#[test]
fn test_handle_mission_completed_missing_mission_id() {
    let payload = object(&[("name", "X")]);
    let env = create_event("executor", "mission.completed", payload);
    let result = handle_mission_completed(&env);
    assert!(result.is_err());
}

#[test]
fn test_handle_mission_completed_errors_and_defaults() {
    let env = create_event("executor", "mission.completed", object(&[("name", "X")]));
    match handle_mission_completed(&env) {
        Err(KnowledgeError::MissingField(f)) => assert_eq!(f, "mission_id"),
        _ => panic!("expected a missing field"),
    }
    let env = create_event("executor", "mission.completed", object(&[("mission_id", "not-a-uuid")]));
    match handle_mission_completed(&env) {
        Err(KnowledgeError::IdParseError(m)) => assert!(!m.is_empty()),
        _ => panic!("expected an id parse error"),
    }
    let id = uuid::Uuid::new_v4();
    let env = create_event("executor", "mission.completed", object(&[("mission_id", &id.to_string())]));
    let command = handle_mission_completed(&env).unwrap();
    assert_eq!(command.title, "Mission completed: unknown mission");
    assert_eq!(command.evidence.content, "no report provided");
    assert_eq!(command.evidence.mission_id, Some(id.as_u128()));
    assert_eq!(command.category, KnowledgeCategory::Operational);
    assert_eq!(command.source, KnowledgeSource::MissionExecution);
    let env = create_event("executor", "mission.completed", "not json".to_string());
    assert!(handle_mission_completed(&env).is_err());
}

#[test]
fn test_integration_publish_mission_completed_creates_knowledge() {
    let mut manager = KnowledgeManager::new(MemoryKnowledgeRepository::new());
    let payload = object(&[
        ("mission_id", &uuid::Uuid::new_v4().to_string()),
        ("name", "SystemHealthCheck"),
        ("report", "All systems nominal"),
    ]);
    let env = create_event("executor", "mission.completed", payload);
    // What a subscriber to `mission.completed` does with the event.
    let command = handle_mission_completed(&env).unwrap();
    manager.handle(command).unwrap();
    assert_eq!(manager.count(), 1);
}

#[test]
fn test_executed_mission_becomes_knowledge() {
    let mut mission = Mission::new("SystemHealthCheck", Priority::High, "{}".to_string());
    mission.state = MissionState::Scheduled;
    let id = mission.id;
    let (events, result) = MissionExecutor::new().execute(mission);
    assert!(result.is_ok());
    let completed = &events[1];
    assert_eq!(completed.topic.as_str(), "mission.completed");
    let command = handle_mission_completed(completed).unwrap();
    assert_eq!(command.title, "Mission completed: SystemHealthCheck");
    assert_eq!(command.evidence.mission_id, Some(id));
    assert_eq!(
        command.evidence.content,
        "Health Check Report for SystemHealthCheck: OK - All systems nominal."
    );
}

#[test]
fn test_knowledge_needs_evidence() {
    let r = Knowledge::from_evidence_list(
        "t".to_string(),
        KnowledgeCategory::Market,
        KnowledgeSource::Derived,
        vec![],
    );
    assert!(matches!(r, Err(KnowledgeError::MissingEvidence)));
    let r = Knowledge::from_evidence_list(
        "t".to_string(),
        KnowledgeCategory::Market,
        KnowledgeSource::Derived,
        vec![Evidence::standalone("a".to_string()), Evidence::new(7, "b".to_string())],
    )
    .unwrap();
    assert_eq!(r.evidence.len(), 2);
    assert_eq!(r.evidence[1].mission_id, Some(7));
    assert_eq!(r.evidence[0].mission_id, None);
}

#[test]
fn test_knowledge_labels_and_messages() {
    assert_eq!(KnowledgeCategory::Operational.to_string(), "OPERATIONAL");
    assert_eq!(KnowledgeCategory::Strategic.to_string(), "STRATEGIC");
    assert_eq!(KnowledgeError::MissingEvidence.to_string(), "Knowledge cannot be created without evidence");
    assert_eq!(
        KnowledgeError::MissingField("mission_id".to_string()).to_string(),
        "Missing required field in event payload: mission_id"
    );
    assert_eq!(KnowledgeError::IdParseError("x".to_string()).to_string(), "Failed to parse ID: x");
    assert_eq!(KnowledgeError::InvalidCategory("y".to_string()).to_string(), "Invalid category: y");
}
