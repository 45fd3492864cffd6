use aes_kernel::errors::KernelError;
use aes_kernel::health::HealthMonitor;
use aes_kernel::metrics::MetricsCollector;
use aes_kernel::registry::Registry;
use aes_kernel::security::SecurityManager;
use aes_kernel::state::{KernelState, StateManager};
use aes_kernel::tracing::Tracer;

#[test]
fn test_registry_register_update_list() {
    let mut reg = Registry::new();
    reg.register("Logger", "0.1.0");
    reg.register("Registry", "0.1.0");
    reg.update_status("Logger", "READY");
    reg.update_status("Unknown", "READY");
    let list = reg.list();
    assert_eq!(list.len(), 2);
    assert_eq!(list[0].name, "Logger");
    assert_eq!(list[0].status, "READY");
    assert_eq!(list[1].status, "INITIALIZING");

    reg.register("Logger", "0.2.0");
    let list = reg.list();
    assert_eq!(list.len(), 2);
    assert_eq!(list[0].version, "0.2.0");
    assert_eq!(list[0].status, "INITIALIZING");
}

#[test]
fn test_state_manager_boot_sequence() {
    let mut s = StateManager::new();
    assert_eq!(*s.get(), KernelState::Created);
    for next in [KernelState::Booting, KernelState::Initializing, KernelState::Ready, KernelState::Stopping, KernelState::Stopped] {
        s.transition(next);
        assert_eq!(*s.get(), next);
    }
}

#[test]
fn test_small_services() {
    assert!(SecurityManager::new(true).verify_boot());
    assert!(SecurityManager::new(false).verify_boot());
    let status = HealthMonitor::new().check_service("Registry", "0.1.0", "READY");
    assert_eq!(status.name, "Registry");
    assert_eq!(status.version, "0.1.0");
    assert_eq!(status.status, "READY");
    assert_eq!(status.error_count, 0);
    assert_eq!(status.latency_ms, 1);
    MetricsCollector::new().record_boot_time(12);
    let tracer = Tracer::new();
    let span = tracer.start_span("boot");
    assert_eq!(span.len(), 36);
    assert!(uuid::Uuid::parse_str(&span).is_ok());
    tracer.end_span(&span);
}

#[test]
fn test_kernel_error_messages() {
    assert_eq!(KernelError::ConfigLoad("x".to_string()).to_string(), "Configuration load failed: x");
    assert_eq!(
        KernelError::InvalidStateTransition("A".to_string(), "B".to_string()).to_string(),
        "State transition invalid: A -> B"
    );
    assert_eq!(KernelError::MissingDependency("db".to_string()).to_string(), "Dependency missing: db");
}

#[test]
fn test_is_whitespace_agrees_with_std() {
    for v in 0u32..=0x10FFFF {
        if let Some(c) = char::from_u32(v) {
            assert_eq!(aes_kernel::text::is_whitespace(c), c.is_whitespace(), "U+{:04X}", v);
        }
    }
    assert!(aes_kernel::text::is_blank_str("  \t\n"));
    assert!(!aes_kernel::text::is_blank_str(" Grow Capital "));
    assert!(aes_kernel::text::is_blank_str(""));
}

#[test]
fn test_health_report_carries_given_times() {
    let hm = HealthMonitor::new();
    let r = hm.report_at("Logger", "0.1.0", "READY", "2024-01-01T00:00:00+00:00".to_string(), "2023-12-31T23:59:59+00:00".to_string());
    assert_eq!(r.last_heartbeat, "2024-01-01T00:00:00+00:00");
    assert_eq!(r.startup_time, "2023-12-31T23:59:59+00:00");
    assert_eq!(r.name, "Logger");
    assert_eq!(r.error_count, 0);
    assert_eq!(r.latency_ms, 1);
    let live = hm.check_service("Logger", "0.1.0", "READY");
    assert!(live.last_heartbeat.len() >= 20);
    assert!(live.startup_time >= live.last_heartbeat);
}

#[test]
fn test_span_ids_are_random_uuids() {
    let tracer = Tracer::new();
    let a = tracer.start_span("a");
    let b = tracer.start_span("b");
    assert_ne!(a, b);
    let u = uuid::Uuid::parse_str(&a).unwrap();
    assert_eq!(u.get_version_num(), 4);
    assert_eq!(u.to_string(), a);
}

#[test]
fn test_registry_never_lists_a_name_twice() {
    let mut reg = Registry::new();
    for _ in 0..3 {
        reg.register("Logger", "0.1.0");
        reg.update_status("Logger", "READY");
    }
    reg.register("Bus", "0.1.0");
    let list = reg.list();
    assert_eq!(list.len(), 2);
    assert_eq!(list.iter().filter(|s| s.name == "Logger").count(), 1);
    assert_eq!(list[0].status, "READY");
}

#[test]
fn test_fresh_envelope_identifiers_and_timestamp() {
    let env = aes_kernel::protocol::envelope::create_event("p", "x.y", "{}".to_string());
    assert_eq!(uuid::Uuid::from_u128(env.message_id).get_version_num(), 4);
    assert_eq!(uuid::Uuid::from_u128(env.correlation_id.as_u128()).get_version_num(), 4);
    assert!(env.timestamp.secs > 1_600_000_000);
    assert!(env.timestamp.nanos < 2_000_000_000);
}

#[test]
fn test_register_core_services() {
    let mut reg = Registry::new();
    aes_kernel::bootstrap::register_core_services(&mut reg);
    let names: Vec<&str> = reg.list().iter().map(|s| s.name).collect();
    assert_eq!(
        names,
        vec![
            "Logger",
            "Registry",
            "EventBus",
            "Scheduler",
            "StateManager",
            "Security",
            "Health",
            "MissionScheduler",
            "MissionExecutor"
        ]
    );
    assert!(reg.list().iter().all(|s| s.version == "0.1.0" && s.status == "INITIALIZING"));
    aes_kernel::bootstrap::register_core_services(&mut reg);
    assert_eq!(reg.list().len(), 9);
}

#[test]
fn test_health_timestamps_are_rfc3339_utc() {
    let r = HealthMonitor::new().check_service("Logger", "0.1.0", "READY");
    for t in [&r.last_heartbeat, &r.startup_time] {
        assert!(t.ends_with("+00:00"), "{}", t);
        assert_eq!(&t[10..11], "T");
        assert!(chrono::DateTime::parse_from_rfc3339(t).is_ok());
    }
}
