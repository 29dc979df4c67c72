//! Routing of records to the queue that serves their kind.

use vstd::prelude::*;
use vstd::string::*;

use crate::config::AppConfig;
use crate::domain::LogType;

verus! {

/// Queues by record kind, at most one per kind.
pub struct QueueTable<Q> {
    app_log: Option<Q>,
    request_log: Option<Q>,
    request_external_log: Option<Q>,
    pii_log: Option<Q>,
    user_access_log: Option<Q>,
}

impl<Q> QueueTable<Q> {
    /// The queue kept for `t`, if any.
    pub closed spec fn slot(self, t: LogType) -> Option<Q> {
        match t {
            LogType::AppLog => self.app_log,
            LogType::RequestLog => self.request_log,
            LogType::RequestExternalLog => self.request_external_log,
            LogType::PIILog => self.pii_log,
            LogType::UserAccessLog => self.user_access_log,
        }
    }
}

impl<Q> View for QueueTable<Q> {
    type V = Map<LogType, Q>;

    closed spec fn view(&self) -> Map<LogType, Q> {
        Map::new(|t: LogType| self.slot(t) is Some, |t: LogType| self.slot(t)->0)
    }
}

impl<Q> QueueTable<Q> {
    /// A table without queues.
    pub fn new() -> (r: Self)
        ensures
            r@ == Map::<LogType, Q>::empty(),
    {
        let r = QueueTable {
            app_log: None,
            request_log: None,
            request_external_log: None,
            pii_log: None,
            user_access_log: None,
        };
        proof { assert(r@ =~= Map::<LogType, Q>::empty()); }
        r
    }

    /// Keeps `queue` for `log_type`, replacing the queue kept before.
    pub fn insert(&mut self, log_type: LogType, queue: Q)
        ensures
            final(self)@ == old(self)@.insert(log_type, queue),
    {
        match log_type {
            LogType::AppLog => self.app_log = Some(queue),
            LogType::RequestLog => self.request_log = Some(queue),
            LogType::RequestExternalLog => self.request_external_log = Some(queue),
            LogType::PIILog => self.pii_log = Some(queue),
            LogType::UserAccessLog => self.user_access_log = Some(queue),
        }
        proof { assert(final(self)@ =~= old(self)@.insert(log_type, queue)); }
    }

    /// The queue kept for `log_type`, if any.
    pub fn get(&self, log_type: LogType) -> (r: Option<&Q>)
        ensures
            r == (if self@.contains_key(log_type) { Some(&self@[log_type]) } else { None }),
    {
        match log_type {
            LogType::AppLog => self.app_log.as_ref(),
            LogType::RequestLog => self.request_log.as_ref(),
            LogType::RequestExternalLog => self.request_external_log.as_ref(),
            LogType::PIILog => self.pii_log.as_ref(),
            LogType::UserAccessLog => self.user_access_log.as_ref(),
        }
    }
}

/// The queue table that the service builds from its queues: every queue is
/// kept for application records, so the last one given serves them.
pub open spec fn service_table<Q>(queues: Seq<Q>) -> Map<LogType, Q> {
    if queues.len() == 0 {
        Map::empty()
    } else {
        Map::empty().insert(LogType::AppLog, queues.last())
    }
}

/// The logging front end: the configuration and the queues by kind.
pub struct LogService<Q> {
    pub config: AppConfig,
    pub queue_table: Option<QueueTable<Q>>,
}

impl<Q> LogService<Q> {
    /// The name of the file that keeps undelivered records of the Kafka
    /// connection `name`: `logs_backup_<name>.json`.
    pub fn backup_file_name(name: &str) -> (r: String)
        ensures
            r@ == "logs_backup_"@ + name@ + ".json"@,
    {
        let mut s = String::from_str("logs_backup_");
        s.append(name);
        s.append(".json");
        s
    }

    /// The service over `config` with one queue per configured connection,
    /// given in the order of `config.kafka.pairs()`; each queue is kept for
    /// application records, so the last one serves them.
    pub fn new(config: AppConfig, queues: Vec<Q>) -> (r: Self)
        ensures
            r.config == config,
            r.queue_table matches Some(t) && t@ == service_table(queues@),
    {
        let ghost all = queues@;
        let mut table: QueueTable<Q> = QueueTable::new();
        let mut rest = queues;
        let mut n: usize = 0;
        proof { assert(rest.len() == rest@.len()); }
        while rest.len() > 0
            invariant
                n <= all.len(),
                all.len() <= usize::MAX,
                rest@ == all.subrange(n as int, all.len() as int),
                rest@.len() == all.len() - n,
                table@ == service_table(all.subrange(0, n as int)),
            decreases rest@.len(),
        {
            let q = rest.remove(0);
            proof { assert(all[n as int] == q); }
            table.insert(LogType::AppLog, q);
            n = n + 1;
            proof {
                assert(rest@ =~= all.subrange(n as int, all.len() as int));
                assert(table@ =~= service_table(all.subrange(0, n as int)));
            }
        }
        proof { assert(all.subrange(0, n as int) =~= all); }
        LogService { config, queue_table: Some(table) }
    }

    /// The broker address that the health monitor probes: that of the
    /// connection named `default`, if there is one.
    pub fn health_check_target(&self) -> (r: Option<String>)
        ensures
            r matches Some(s) ==> self.config.kafka@.contains_key("default"@)
                && s@ == self.config.kafka@["default"@].bootstrap_servers@,
            r is None ==> !self.config.kafka@.contains_key("default"@),
    {
        match self.config.get_kafka_config("default") {
            Some(c) => Some(c.bootstrap_servers),
            None => None,
        }
    }

    /// The queue that serves records of kind `log_type`, if any.
    pub fn route(&self, log_type: LogType) -> (r: Option<&Q>)
        ensures
            r == (match self.queue_table {
                Some(t) => if t@.contains_key(log_type) { Some(&t@[log_type]) } else { None },
                None => None,
            }),
    {
        match &self.queue_table {
            Some(t) => t.get(log_type),
            None => None,
        }
    }
}

/// A logging service over a record repository that accepts application
/// records only.
pub struct AppLogService<R> {
    repository: R,
}

impl<R> AppLogService<R> {
    /// The service over `repository`.
    pub fn new(repository: R) -> (r: Self)
        ensures
            r.store() == repository,
    {
        AppLogService { repository }
    }

    /// The repository the service saves to.
    pub closed spec fn store(&self) -> R {
        self.repository
    }

    /// The repository the service saves to.
    pub fn repository(&self) -> (r: &R)
        ensures
            *r == self.store(),
    {
        &self.repository
    }

    /// Whether the service saves records of kind `log_type`: application
    /// records only.
    pub fn supports_log_type(&self, log_type: LogType) -> (r: bool)
        ensures
            r == (log_type == LogType::AppLog),
    {
        match log_type {
            LogType::AppLog => true,
            _ => false,
        }
    }
}

} // verus!
