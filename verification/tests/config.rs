use logappender::config::{AppConfig, KafkaConfig};

fn sample_kafka_config(topic: &str) -> KafkaConfig {
    KafkaConfig {
        bootstrap_servers: "localhost:9092".to_string(),
        acks: "all".to_string(),
        enable_idempotence: true,
        retries: 5,
        message_timeout_ms: 3000,
        topic: topic.to_string(),
        security_protocol: "PLAINTEXT".to_string(),
        sasl_mechanism: "".to_string(),
        sasl_username: "".to_string(),
        sasl_password: "".to_string(),
        ssl_ca_location: "".to_string(),
    }
}

/// The configuration as the application loads it from its `config` file,
/// which names one connection, `default`.
fn loaded_config() -> AppConfig {
    AppConfig::new(vec![("default".to_string(), sample_kafka_config("app_logs"))])
}

#[test]
fn app_config_loads_valid_config() {
    let config = loaded_config();
    assert!(config.kafka.contains_key("default"));
}

#[test]
fn app_config_returns_none_for_nonexistent_kafka_config() {
    let config = loaded_config();
    assert!(config.get_kafka_config("nonexistent").is_none());
}

#[test]
fn kafka_config_has_correct_default_values() {
    let kafka_config = KafkaConfig {
        bootstrap_servers: "localhost:9092".to_string(),
        acks: "all".to_string(),
        enable_idempotence: true,
        retries: 5,
        message_timeout_ms: 3000,
        topic: "test_topic".to_string(),
        security_protocol: "PLAINTEXT".to_string(),
        sasl_mechanism: "".to_string(),
        sasl_username: "".to_string(),
        sasl_password: "".to_string(),
        ssl_ca_location: "".to_string(),
    };
    assert_eq!(kafka_config.bootstrap_servers, "localhost:9092");
    assert_eq!(kafka_config.acks, "all");
    assert!(kafka_config.enable_idempotence);
    assert_eq!(kafka_config.retries, 5);
    assert_eq!(kafka_config.message_timeout_ms, 3000);
    assert_eq!(kafka_config.topic, "test_topic");
    assert_eq!(kafka_config.security_protocol, "PLAINTEXT");
}

#[test]
fn get_kafka_config_returns_a_copy_of_the_named_connection() {
    let config = loaded_config();
    let found = config.get_kafka_config("default").expect("default is configured");
    assert_eq!(found.topic, "app_logs");
    assert_eq!(found.bootstrap_servers, "localhost:9092");
    assert_eq!(found.retries, 5);
}

#[test]
fn later_entry_with_the_same_name_replaces_the_earlier() {
    let config = AppConfig::new(vec![
        ("default".to_string(), sample_kafka_config("first")),
        ("audit".to_string(), sample_kafka_config("audit_logs")),
        ("default".to_string(), sample_kafka_config("second")),
    ]);
    assert_eq!(config.get_kafka_config("default").unwrap().topic, "second");
    assert_eq!(config.get_kafka_config("audit").unwrap().topic, "audit_logs");
    assert_eq!(config.kafka.pairs().len(), 2);
}

#[test]
fn empty_configuration_has_no_connection() {
    let config = AppConfig::new(vec![]);
    assert!(!config.kafka.contains_key("default"));
    assert!(config.get_kafka_config("default").is_none());
}

#[test]
fn producer_settings_name_every_property() {
    let mut c = sample_kafka_config("t");
    c.retries = 12;
    c.message_timeout_ms = 30000;
    c.enable_idempotence = false;
    c.sasl_username = "svc".to_string();
    let settings = c.producer_settings();
    let expected: Vec<(String, String)> = vec![
        ("bootstrap.servers", "localhost:9092"),
        ("acks", "all"),
        ("enable.idempotence", "false"),
        ("retries", "12"),
        ("message.timeout.ms", "30000"),
        ("security.protocol", "PLAINTEXT"),
        ("sasl.mechanism", ""),
        ("sasl.username", "svc"),
        ("sasl.password", ""),
        ("ssl.ca.location", ""),
    ]
    .into_iter()
    .map(|(k, v)| (k.to_string(), v.to_string()))
    .collect();
    assert_eq!(settings, expected);
}

#[test]
fn producer_settings_render_flags_and_numbers() {
    let mut c = sample_kafka_config("t");
    c.enable_idempotence = true;
    c.retries = 0;
    c.message_timeout_ms = u64::MAX;
    let settings = c.producer_settings();
    assert_eq!(settings[2].1, "true");
    assert_eq!(settings[3].1, "0");
    assert_eq!(settings[4].1, "18446744073709551615");
}
