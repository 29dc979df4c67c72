//! Verified core of a log shipper that routes structured log records to
//! Kafka queues and keeps undeliverable records for a later resend.

pub mod string_map;
pub mod clock;
pub mod domain;
pub mod text;
pub mod config;
pub mod circuit_breaker;
pub mod retry;
pub mod queue;
pub mod storage;
pub mod resender;
pub mod service;
pub mod laws;
