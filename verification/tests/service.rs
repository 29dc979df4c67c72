use logappender::config::{AppConfig, KafkaConfig};
use logappender::domain::LogType;
use logappender::service::{AppLogService, LogService, QueueTable};

fn kafka(servers: &str) -> KafkaConfig {
    KafkaConfig {
        bootstrap_servers: servers.to_string(),
        acks: "all".to_string(),
        enable_idempotence: true,
        retries: 5,
        message_timeout_ms: 3000,
        topic: "logs".to_string(),
        security_protocol: "PLAINTEXT".to_string(),
        sasl_mechanism: "".to_string(),
        sasl_username: "".to_string(),
        sasl_password: "".to_string(),
        ssl_ca_location: "".to_string(),
    }
}

#[test]
fn backup_file_name_follows_the_pattern() {
    assert_eq!(LogService::<u8>::backup_file_name("default"), "logs_backup_default.json");
    assert_eq!(LogService::<u8>::backup_file_name(""), "logs_backup_.json");
}

#[test]
fn only_application_records_are_routed_to_the_last_queue() {
    let config = AppConfig::new(vec![
        ("default".to_string(), kafka("localhost:9092")),
        ("audit".to_string(), kafka("audit:9092")),
    ]);
    let service = LogService::new(config, vec!["queue-default", "queue-audit"]);
    assert_eq!(service.route(LogType::AppLog), Some(&"queue-audit"));
    assert_eq!(service.route(LogType::RequestLog), None);
    assert_eq!(service.route(LogType::RequestExternalLog), None);
    assert_eq!(service.route(LogType::PIILog), None);
    assert_eq!(service.route(LogType::UserAccessLog), None);
    assert_eq!(service.health_check_target().as_deref(), Some("localhost:9092"));
}

#[test]
fn service_without_queues_routes_nothing() {
    let service: LogService<u8> = LogService::new(AppConfig::new(vec![]), vec![]);
    assert_eq!(service.route(LogType::AppLog), None);
    assert!(service.health_check_target().is_none());
    let no_table: LogService<u8> = LogService { config: AppConfig::new(vec![]), queue_table: None };
    assert_eq!(no_table.route(LogType::AppLog), None);
}

#[test]
fn queue_table_keeps_one_queue_per_kind() {
    let mut t = QueueTable::new();
    t.insert(LogType::PIILog, 1);
    t.insert(LogType::RequestLog, 2);
    t.insert(LogType::PIILog, 3);
    assert_eq!(t.get(LogType::PIILog), Some(&3));
    assert_eq!(t.get(LogType::RequestLog), Some(&2));
    assert_eq!(t.get(LogType::AppLog), None);
}

#[test]
fn app_log_service_supports_application_records_only() {
    let s = AppLogService::new(7u32);
    assert_eq!(*s.repository(), 7);
    assert!(s.supports_log_type(LogType::AppLog));
    assert!(!s.supports_log_type(LogType::RequestLog));
    assert!(!s.supports_log_type(LogType::RequestExternalLog));
    assert!(!s.supports_log_type(LogType::PIILog));
    assert!(!s.supports_log_type(LogType::UserAccessLog));
}
