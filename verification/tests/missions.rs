use aes_kernel::mission::errors::MissionError;
use aes_kernel::mission::executor::MissionExecutor;
use aes_kernel::mission::mission::Mission;
use aes_kernel::mission::queue::MissionQueue;
use aes_kernel::mission::scheduler::MissionScheduler;
use aes_kernel::mission::state::MissionState;
use aes_kernel::priority::Priority;

fn mission(name: &str) -> Mission {
    Mission::new(name, Priority::Normal, "{}".to_string())
}

fn fields(payload: &str) -> serde_json::Value {
    serde_json::from_str(payload).unwrap()
}

#[test]
fn test_mission_starts_created() {
    let m = Mission::new("Scan", Priority::High, "{\"a\":1}".to_string());
    assert_eq!(m.state, MissionState::Created);
    assert_eq!(m.name, "Scan");
    assert_eq!(m.priority, Priority::High);
    assert_eq!(m.payload, "{\"a\":1}");
    assert!(!m.is_complete());
}

#[test]
fn test_mission_lifecycle_with_retry() {
    let mut m = mission("Scan");
    for next in [
        MissionState::Queued,
        MissionState::Scheduled,
        MissionState::Running,
        MissionState::Failed,
        MissionState::Retrying,
        MissionState::Scheduled,
        MissionState::Running,
        MissionState::Completed,
    ] {
        m.transition_to(next).unwrap();
        assert_eq!(m.state, next);
    }
    assert!(m.is_complete());
    assert!(m.transition_to(MissionState::Retrying).is_err());
    assert_eq!(m.state, MissionState::Completed);
}

#[test]
fn test_mission_invalid_transition_message() {
    let mut m = mission("Scan");
    match m.transition_to(MissionState::Running) {
        Err(e) => assert_eq!(e.to_string(), "Invalid state transition: Created -> Running"),
        Ok(()) => panic!("should be refused"),
    }
    assert_eq!(m.state, MissionState::Created);
}

#[test]
fn test_failed_mission_is_complete() {
    let mut m = mission("Scan");
    m.state = MissionState::Failed;
    assert!(m.is_complete());
    m.state = MissionState::Running;
    assert!(!m.is_complete());
}

#[test]
fn test_queue_is_fifo_and_bounded() {
    let mut q = MissionQueue::new(2);
    assert!(q.is_empty());
    q.push(mission("a")).unwrap();
    q.push(mission("b")).unwrap();
    assert!(matches!(q.push(mission("c")), Err(MissionError::QueueFull)));
    assert_eq!(q.len(), 2);
    assert_eq!(q.pop().unwrap().name, "a");
    assert_eq!(q.pop().unwrap().name, "b");
    assert!(q.pop().is_none());
    assert!(q.is_empty());
}

#[test]
fn test_zero_capacity_queue_refuses_everything() {
    let mut q = MissionQueue::new(0);
    assert!(q.push(mission("a")).is_err());
    assert_eq!(q.len(), 0);
}

#[test]
fn test_scheduler_enqueue_then_dequeue() {
    let mut s = MissionScheduler::new();
    let m = Mission::new("SystemHealthCheck", Priority::High, "{}".to_string());
    let id = m.id;
    let (events, result) = s.enqueue(m);
    assert!(result.is_ok());
    assert_eq!(events.len(), 2);
    assert_eq!(events[0].topic.as_str(), "mission.created");
    assert_eq!(events[0].source, "scheduler");
    let created = fields(&events[0].payload);
    assert_eq!(created["mission_id"], uuid::Uuid::from_u128(id).to_string());
    assert_eq!(created["name"], "SystemHealthCheck");
    assert_eq!(created["priority"], "HIGH");
    assert_eq!(events[1].topic.as_str(), "mission.queued");
    assert_eq!(fields(&events[1].payload)["state"], "QUEUED");
    assert_eq!(s.get_queue_length(), 1);

    let (m, event) = s.dequeue().unwrap();
    assert_eq!(m.state, MissionState::Scheduled);
    assert_eq!(m.id, id);
    assert_eq!(event.topic.as_str(), "mission.scheduled");
    assert_eq!(fields(&event.payload)["state"], "SCHEDULED");
    assert_eq!(s.get_queue_length(), 0);
    assert!(s.dequeue().is_none());
}

#[test]
fn test_scheduler_refuses_mission_not_created() {
    let mut s = MissionScheduler::new();
    let mut m = mission("x");
    m.state = MissionState::Running;
    let (events, result) = s.enqueue(m);
    assert!(events.is_empty());
    match result {
        Err(e) => assert_eq!(e.to_string(), "Invalid state transition: Running -> Queued"),
        Ok(()) => panic!("should be refused"),
    }
    assert_eq!(s.get_queue_length(), 0);
}

#[test]
fn test_scheduler_is_fifo() {
    let mut s = MissionScheduler::new();
    for name in ["a", "b", "c"] {
        let (_, r) = s.enqueue(mission(name));
        r.unwrap();
    }
    assert_eq!(s.dequeue().unwrap().0.name, "a");
    assert_eq!(s.dequeue().unwrap().0.name, "b");
    assert_eq!(s.dequeue().unwrap().0.name, "c");
}

#[test]
fn test_scheduler_queue_full_after_thousand() {
    let mut s = MissionScheduler::new();
    for _ in 0..1000 {
        let (_, r) = s.enqueue(mission("m"));
        r.unwrap();
    }
    let (events, r) = s.enqueue(mission("overflow"));
    assert_eq!(events.len(), 2);
    assert!(matches!(r, Err(MissionError::QueueFull)));
    assert_eq!(s.get_queue_length(), 1000);
}

#[test]
fn test_executor_completes_health_check() {
    let mut m = Mission::new("SystemHealthCheck", Priority::High, "{}".to_string());
    m.state = MissionState::Scheduled;
    let (events, result) = MissionExecutor::new().execute(m);
    assert!(result.is_ok());
    assert_eq!(events.len(), 2);
    assert_eq!(events[0].topic.as_str(), "mission.started");
    assert_eq!(fields(&events[0].payload)["state"], "RUNNING");
    assert_eq!(events[1].topic.as_str(), "mission.completed");
    let done = fields(&events[1].payload);
    assert_eq!(done["state"], "COMPLETED");
    assert_eq!(done["report"], "Health Check Report for SystemHealthCheck: OK - All systems nominal.");
}

#[test]
fn test_executor_fails_unknown_mission() {
    let mut m = mission("Mystery");
    m.state = MissionState::Scheduled;
    let (events, result) = MissionExecutor::new().execute(m);
    match result {
        Err(MissionError::ExecutionFailed(why)) => assert_eq!(why, "Unknown mission: Mystery"),
        _ => panic!("should fail"),
    }
    assert_eq!(events.len(), 2);
    assert_eq!(events[1].topic.as_str(), "mission.failed");
    let failed = fields(&events[1].payload);
    assert_eq!(failed["error"], "Execution failed: Unknown mission: Mystery");
    assert_eq!(failed["name"], "Mystery");
}

#[test]
fn test_executor_refuses_unscheduled_mission() {
    let m = mission("SystemHealthCheck");
    let (events, result) = MissionExecutor::new().execute(m);
    assert!(events.is_empty());
    match result {
        Err(e) => assert_eq!(e.to_string(), "Invalid state transition: Created -> Running"),
        Ok(()) => panic!("should be refused"),
    }
}

#[test]
fn test_mission_labels_and_messages() {
    assert_eq!(MissionState::Retrying.to_string(), "RETRYING");
    assert_eq!(MissionState::Queued.name(), "Queued");
    assert_eq!(MissionError::QueueFull.to_string(), "Queue is full");
    assert_eq!(MissionError::MissionNotFound("42".to_string()).to_string(), "Mission not found: 42");
    assert_eq!(Priority::Low.to_string(), "LOW");
    assert_eq!(Priority::Normal.to_string(), "NORMAL");
}
