use logappender::circuit_breaker::{monitor_step, HealthNotice, KAFKA_INITIALLY_AVAILABLE};
use logappender::domain::{LogLevel, LogMessage, LogType};
use logappender::queue::{collect_batch, BATCH_LIMIT};
use logappender::resender::{plan_resend, successfully_sent, ResendPlan, IDLE_WAIT_SECS};
use logappender::retry::{route_delivery, DeliveryRoute, DeliveryStep, RetryState, MAX_RETRIES};
use logappender::storage::LocalLogStorage;

fn msg(text: &str) -> LogMessage {
    LogMessage::stamped("t".to_string(), LogType::AppLog, LogLevel::Info, text, "c")
}

fn texts(logs: &[LogMessage]) -> Vec<String> {
    logs.iter().map(|l| l.message.clone()).collect()
}

#[test]
fn monitor_reports_every_failure_and_one_recovery() {
    assert!(KAFKA_INITIALLY_AVAILABLE);
    let s = monitor_step(true, true);
    assert!(s.available && s.notice == HealthNotice::Steady);
    let s = monitor_step(true, false);
    assert!(!s.available && s.notice == HealthNotice::Unreachable);
    let s = monitor_step(false, false);
    assert!(!s.available && s.notice == HealthNotice::Unreachable);
    let s = monitor_step(false, true);
    assert!(s.available && s.notice == HealthNotice::BackOnline);
}

#[test]
fn retries_back_off_exponentially_then_store_locally() {
    let mut state = RetryState::new();
    let mut delays = Vec::new();
    loop {
        match state.record_attempt(false) {
            DeliveryStep::RetryAfterMs(ms) => delays.push(ms),
            DeliveryStep::SaveLocally => break,
            DeliveryStep::Delivered => panic!("no attempt succeeded"),
        }
    }
    assert_eq!(delays.len(), MAX_RETRIES);
    assert_eq!(delays, vec![500, 250_000, 125_000_000, 62_500_000_000, 31_250_000_000_000]);
    assert_eq!(state.record_attempt(false), DeliveryStep::SaveLocally);
}

#[test]
fn delivery_stops_retrying() {
    let mut state = RetryState::new();
    assert_eq!(state.record_attempt(false), DeliveryStep::RetryAfterMs(500));
    assert_eq!(state.record_attempt(true), DeliveryStep::Delivered);
}

#[test]
fn batches_take_at_most_ten_in_order() {
    let (tx, mut rx) = tokio::sync::mpsc::channel::<LogMessage>(100);
    for i in 0..13 {
        tx.try_send(msg(&format!("m{}", i))).unwrap();
    }
    let first = collect_batch(&mut rx);
    assert_eq!(first.len(), BATCH_LIMIT);
    assert_eq!(first[0].message, "m0");
    assert_eq!(first[9].message, "m9");
    let second = collect_batch(&mut rx);
    assert_eq!(texts(&second), vec!["m10", "m11", "m12"]);
    assert!(collect_batch(&mut rx).is_empty());
}

#[test]
fn storage_keeps_its_path() {
    let s = LocalLogStorage::new("logs_backup_default.json");
    assert_eq!(s.file_path(), "logs_backup_default.json");
}

#[test]
fn clearing_removes_sent_records_and_keeps_the_rest_in_order() {
    let logs = vec![msg("a"), msg("b"), msg("c"), msg("b"), msg("d")];
    let sent = vec![msg("b"), msg("x")];
    let kept = LocalLogStorage::retain_unsent(&logs, &sent);
    assert_eq!(texts(&kept), vec!["a", "c", "d"]);
    let again = LocalLogStorage::retain_unsent(&kept, &sent);
    assert_eq!(texts(&again), vec!["a", "c", "d"]);
    let none_sent = LocalLogStorage::retain_unsent(&logs, &[]);
    assert_eq!(texts(&none_sent), vec!["a", "b", "c", "b", "d"]);
}

#[test]
fn records_that_differ_in_any_part_are_kept() {
    let mut other = msg("a");
    other.correlation_id = "other".to_string();
    let kept = LocalLogStorage::retain_unsent(&vec![msg("a"), other], &[msg("a")]);
    assert_eq!(kept.len(), 1);
    assert_eq!(kept[0].correlation_id, "other");
}

#[test]
fn resender_waits_unless_available_with_records() {
    assert_eq!(plan_resend(false, 3), ResendPlan::WaitSecs(IDLE_WAIT_SECS));
    assert_eq!(plan_resend(true, 0), ResendPlan::WaitSecs(30));
    assert_eq!(plan_resend(true, 2), ResendPlan::Resend);
}

#[test]
fn resend_round_clears_exactly_the_delivered() {
    let logs = vec![msg("a"), msg("b"), msg("c")];
    let sent = successfully_sent(&logs, &vec![true, false, true]);
    assert_eq!(texts(&sent), vec!["a", "c"]);
    let kept = LocalLogStorage::retain_unsent(&logs, &sent);
    assert_eq!(texts(&kept), vec!["b"]);
}

#[test]
fn records_go_straight_to_storage_while_kafka_is_down() {
    assert_eq!(route_delivery(false), DeliveryRoute::LocalStorage);
    assert_eq!(route_delivery(true), DeliveryRoute::Kafka);
}
