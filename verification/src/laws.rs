//! Properties that hold across the library's operations.

use vstd::prelude::*;

use crate::config::{config_table, producer_properties, KafkaConfig};
use crate::domain::{LogLevel, LogMessageView, LogType, RequestView, ResponseView};
use crate::resender::delivered;
use crate::retry::{delivery_outcome, DeliveryStep, MAX_RETRIES};
use crate::service::service_table;
use crate::storage::unsent;
use crate::text::{bool_text, decimal};

verus! {

/// Building a record fails exactly when it is a `RequestLog` or a
/// `RequestExternalLog` record that lacks its request or its response. A
/// missing request is reported as "Request object is missing"; a present
/// request with a missing response as "Response object is missing".
pub proof fn build_fails_exactly_for_incomplete_request_records(v: LogMessageView)
    ensures
        (v.build_error() is Some) == ((v.log_type == LogType::RequestLog || v.log_type
            == LogType::RequestExternalLog) && (v.request is None || v.response is None)),
        (v.log_type == LogType::RequestLog || v.log_type == LogType::RequestExternalLog)
            && v.request is None ==> v.build_error() == Some("Request object is missing"@),
        (v.log_type == LogType::RequestLog || v.log_type == LogType::RequestExternalLog)
            && v.request is Some && v.response is None ==> v.build_error() == Some(
            "Response object is missing"@,
        ),
{
}

/// A freshly created record carries the given time stamp, kind, severity,
/// message and correlation id, and every optional part is absent.
pub proof fn fresh_records_have_only_what_was_given(
    t: Seq<char>,
    log_type: LogType,
    log_level: LogLevel,
    message: Seq<char>,
    correlation_id: Seq<char>,
)
    ensures
        ({
            let v = LogMessageView::fresh(t, log_type, log_level, message, correlation_id);
            &&& v.event_date_time == t
            &&& v.log_type == log_type
            &&& v.log_level == log_level
            &&& v.message == message
            &&& v.correlation_id == correlation_id
            &&& v.app_id is None
            &&& v.app_version is None
            &&& v.app_address is None
            &&& v.service_name is None
            &&& v.service_version is None
            &&& v.code_location is None
            &&& v.caller_channel_name is None
            &&& v.caller_user is None
            &&& v.relation_id is None
            &&& v.execution_time is None
            &&& v.request is None
            &&& v.response is None
            &&& v.extra_fields is None
        }),
{
}

/// Adding an extra field changes nothing but the extra fields: they hold
/// the earlier fields (none when absent) with `value` stored under `key`,
/// and every other part of the record keeps its value.
pub proof fn adding_an_extra_field_changes_only_the_extra_fields(
    v: LogMessageView,
    key: Seq<char>,
    value: Seq<char>,
)
    ensures
        ({
            let w = v.with_extra_field(key, value);
            let before = match v.extra_fields {
                Some(m) => m,
                None => Map::<Seq<char>, Seq<char>>::empty(),
            };
            &&& w.extra_fields == Some(before.insert(key, value))
            &&& w.event_date_time == v.event_date_time
            &&& w.log_type == v.log_type
            &&& w.log_level == v.log_level
            &&& w.app_id == v.app_id
            &&& w.app_version == v.app_version
            &&& w.app_address == v.app_address
            &&& w.service_name == v.service_name
            &&& w.service_version == v.service_version
            &&& w.code_location == v.code_location
            &&& w.caller_channel_name == v.caller_channel_name
            &&& w.caller_user == v.caller_user
            &&& w.correlation_id == v.correlation_id
            &&& w.relation_id == v.relation_id
            &&& w.execution_time == v.execution_time
            &&& w.message == v.message
            &&& w.request == v.request
            &&& w.response == v.response
        }),
{
}

/// Whether a list of property pairs gives `value` to every property named
/// `name`, and names it at least once.
pub open spec fn sets_property(p: Seq<(Seq<char>, Seq<char>)>, name: Seq<char>, value: Seq<char>) -> bool {
    &&& exists|i: int| 0 <= i < p.len() && #[trigger] p[i] == (name, value)
    &&& forall|i: int| 0 <= i < p.len() && #[trigger] p[i].0 == name ==> p[i].1 == value
}

/// Each producer property carries the configuration field of the same
/// meaning, and nothing else sets that property.
pub proof fn producer_properties_carry_their_fields(c: KafkaConfig)
    ensures
        producer_properties(c).len() == 10,
        sets_property(producer_properties(c), "bootstrap.servers"@, c.bootstrap_servers@),
        sets_property(producer_properties(c), "acks"@, c.acks@),
        sets_property(producer_properties(c), "enable.idempotence"@, bool_text(c.enable_idempotence)),
        sets_property(producer_properties(c), "retries"@, decimal(c.retries as nat)),
        sets_property(producer_properties(c), "message.timeout.ms"@, decimal(c.message_timeout_ms as nat)),
        sets_property(producer_properties(c), "security.protocol"@, c.security_protocol@),
        sets_property(producer_properties(c), "sasl.mechanism"@, c.sasl_mechanism@),
        sets_property(producer_properties(c), "sasl.username"@, c.sasl_username@),
        sets_property(producer_properties(c), "sasl.password"@, c.sasl_password@),
        sets_property(producer_properties(c), "ssl.ca.location"@, c.ssl_ca_location@),
{
    reveal_strlit("bootstrap.servers");
    reveal_strlit("acks");
    reveal_strlit("enable.idempotence");
    reveal_strlit("retries");
    reveal_strlit("message.timeout.ms");
    reveal_strlit("security.protocol");
    reveal_strlit("sasl.mechanism");
    reveal_strlit("sasl.username");
    reveal_strlit("sasl.password");
    reveal_strlit("ssl.ca.location");
    let p = producer_properties(c);
    let names = seq![
        "bootstrap.servers"@,
        "acks"@,
        "enable.idempotence"@,
        "retries"@,
        "message.timeout.ms"@,
        "security.protocol"@,
        "sasl.mechanism"@,
        "sasl.username"@,
        "sasl.password"@,
        "ssl.ca.location"@,
    ];
    assert forall|i: int| 0 <= i < 10 implies #[trigger] p[i].0 == names[i] by {}
    assert("bootstrap.servers"@[0] != "security.protocol"@[0]);
    assert("enable.idempotence"@[0] != "message.timeout.ms"@[0]);
    assert("sasl.username"@[5] != "sasl.password"@[5]);
    assert forall|i: int, j: int| 0 <= i < 10 && 0 <= j < 10 && i != j implies #[trigger] names[i]
        != #[trigger] names[j] by {
        if names[i].len() == names[j].len() {
            assert(names[i][0] != names[j][0] || names[i][5] != names[j][5]);
        }
    }
    assert(p[0] == ("bootstrap.servers"@, c.bootstrap_servers@));
    assert(p[1] == ("acks"@, c.acks@));
    assert(p[2] == ("enable.idempotence"@, bool_text(c.enable_idempotence)));
    assert(p[3] == ("retries"@, decimal(c.retries as nat)));
    assert(p[4] == ("message.timeout.ms"@, decimal(c.message_timeout_ms as nat)));
    assert(p[5] == ("security.protocol"@, c.security_protocol@));
    assert(p[6] == ("sasl.mechanism"@, c.sasl_mechanism@));
    assert(p[7] == ("sasl.username"@, c.sasl_username@));
    assert(p[8] == ("sasl.password"@, c.sasl_password@));
    assert(p[9] == ("ssl.ca.location"@, c.ssl_ca_location@));
}

/// A record of a kind other than `RequestLog` and `RequestExternalLog`
/// always builds.
pub proof fn plain_records_always_build(v: LogMessageView)
    requires
        v.log_type != LogType::RequestLog,
        v.log_type != LogType::RequestExternalLog,
    ensures
        v.build_error() is None,
{
}

/// A record that carries both a request and a response always builds,
/// whatever its kind.
pub proof fn complete_exchange_builds(v: LogMessageView, request: RequestView, response: ResponseView)
    ensures
        (LogMessageView { request: Some(request), response: Some(response), ..v }).build_error() is None,
{
}

/// After storing `value` under `key` among a record's extra fields, the
/// fields hold `value` under `key`, every other field is unchanged, and so
/// is the rest of the record.
pub proof fn extra_field_reads_back(v: LogMessageView, key: Seq<char>, value: Seq<char>, other: Seq<char>)
    requires
        other != key,
    ensures
        v.with_extra_field(key, value).extra_fields matches Some(m) && m.contains_key(key) && m[key]
            == value,
        v.extra_fields matches Some(m0) ==> (v.with_extra_field(key, value).extra_fields matches Some(
            m,
        ) && m.contains_key(other) == m0.contains_key(other) && (m0.contains_key(other) ==> m[other]
            == m0[other])),
        v.with_extra_field(key, value).message == v.message,
        v.with_extra_field(key, value).build_error() == v.build_error(),
{
}

/// A named configuration is found under its name exactly as it was last
/// given.
pub proof fn config_lookup_finds_last(entries: Seq<(String, KafkaConfig)>, i: int)
    requires
        0 <= i < entries.len(),
        forall|j: int| i < j < entries.len() ==> #[trigger] entries[j].0@ != entries[i].0@,
    ensures
        config_table(entries).contains_key(entries[i].0@),
        config_table(entries)[entries[i].0@] == entries[i].1,
    decreases entries.len(),
{
    if i < entries.len() - 1 {
        let rest = entries.drop_last();
        assert forall|j: int| i < j < rest.len() implies #[trigger] rest[j].0@ != rest[i].0@ by {
            assert(rest[j] == entries[j]);
        }
        config_lookup_finds_last(rest, i);
        assert(entries.last().0@ != entries[i].0@);
    }
}

/// A name that no entry carries is not found.
pub proof fn config_lookup_misses_unknown(entries: Seq<(String, KafkaConfig)>, name: Seq<char>)
    requires
        forall|j: int| 0 <= j < entries.len() ==> #[trigger] entries[j].0@ != name,
    ensures
        !config_table(entries).contains_key(name),
    decreases entries.len(),
{
    if entries.len() > 0 {
        let rest = entries.drop_last();
        assert forall|j: int| 0 <= j < rest.len() implies #[trigger] rest[j].0@ != name by {
            assert(rest[j] == entries[j]);
        }
        config_lookup_misses_unknown(rest, name);
    }
}

/// The service routes nothing but application records, and routes those
/// exactly when it has a queue.
pub proof fn only_application_records_are_routed<Q>(queues: Seq<Q>, t: LogType)
    ensures
        service_table(queues).contains_key(t) <==> (t == LogType::AppLog && queues.len() > 0),
{
}

/// Delivering a record ends in local storage exactly when its first
/// `MAX_RETRIES + 1` attempts all fail, and ends delivered otherwise.
pub proof fn retries_end_in_storage_only_after_every_attempt_fails(retries_done: nat, attempts: Seq<bool>)
    requires
        retries_done <= MAX_RETRIES,
        attempts.len() >= MAX_RETRIES + 1 - retries_done,
    ensures
        delivery_outcome(retries_done, attempts) == (if forall|i: int|
            0 <= i < MAX_RETRIES + 1 - retries_done ==> !#[trigger] attempts[i] {
            Some(DeliveryStep::SaveLocally)
        } else {
            Some(DeliveryStep::Delivered)
        }),
    decreases attempts.len(),
{
    let budget = MAX_RETRIES + 1 - retries_done;
    if attempts[0] {
        assert(!(forall|i: int| 0 <= i < budget ==> !#[trigger] attempts[i]));
    } else if retries_done < MAX_RETRIES {
        let rest = attempts.drop_first();
        retries_end_in_storage_only_after_every_attempt_fails(retries_done + 1, rest);
        if forall|i: int| 0 <= i < budget ==> !#[trigger] attempts[i] {
            assert forall|i: int| 0 <= i < budget - 1 implies !#[trigger] rest[i] by {
                assert(rest[i] == attempts[i + 1]);
            }
        } else {
            let k = choose|i: int| 0 <= i < budget && #[trigger] attempts[i];
            assert(rest[k - 1] == attempts[k]);
        }
    }
}

/// Clearing delivered records keeps exactly the stored records that equal
/// none of them: nothing delivered stays, nothing else is lost.
pub proof fn clearing_keeps_exactly_the_undelivered(logs: Seq<LogMessageView>, sent: Seq<LogMessageView>)
    ensures
        forall|x: LogMessageView| #[trigger] unsent(logs, sent).contains(x) <==> (logs.contains(x)
            && !sent.contains(x)),
    decreases logs.len(),
{
    if logs.len() > 0 {
        let rest = logs.drop_last();
        clearing_keeps_exactly_the_undelivered(rest, sent);
        assert forall|x: LogMessageView| #[trigger] unsent(logs, sent).contains(x) <==> (logs.contains(x)
            && !sent.contains(x)) by {
            if logs.contains(x) && x != logs.last() {
                let k = choose|k: int| 0 <= k < logs.len() && logs[k] == x;
                assert(rest[k] == x);
            }
            if rest.contains(x) {
                let k = choose|k: int| 0 <= k < rest.len() && rest[k] == x;
                assert(logs[k] == x);
            }
            if x == logs.last() {
                assert(logs[logs.len() - 1] == x);
            }
            let u = unsent(rest, sent);
            if !sent.contains(logs.last()) {
                if u.push(logs.last()).contains(x) && x != logs.last() {
                    let k = choose|k: int| 0 <= k < u.push(logs.last()).len() && u.push(logs.last())[k] == x;
                    assert(u[k] == x);
                }
                if u.contains(x) {
                    let k = choose|k: int| 0 <= k < u.len() && u[k] == x;
                    assert(u.push(logs.last())[k] == x);
                }
                if x == logs.last() {
                    assert(u.push(logs.last())[u.len() as int] == x);
                }
            }
        }
    }
}

/// Clearing the same delivered records twice keeps what clearing them
/// once keeps.
pub proof fn clearing_twice_changes_nothing(logs: Seq<LogMessageView>, sent: Seq<LogMessageView>)
    ensures
        unsent(unsent(logs, sent), sent) == unsent(logs, sent),
    decreases logs.len(),
{
    if logs.len() > 0 {
        let rest = logs.drop_last();
        clearing_twice_changes_nothing(rest, sent);
        let u = unsent(rest, sent);
        if !sent.contains(logs.last()) {
            let w = u.push(logs.last());
            assert(w.drop_last() =~= u);
        }
    }
}

/// The records whose flag is off, in their order.
pub open spec fn undelivered(logs: Seq<LogMessageView>, flags: Seq<bool>) -> Seq<LogMessageView>
    decreases logs.len(),
{
    if logs.len() == 0 {
        Seq::empty()
    } else if flags[logs.len() - 1] {
        undelivered(logs.drop_last(), flags)
    } else {
        undelivered(logs.drop_last(), flags).push(logs.last())
    }
}

proof fn delivered_members(logs: Seq<LogMessageView>, flags: Seq<bool>, x: LogMessageView)
    requires
        flags.len() >= logs.len(),
    ensures
        delivered(logs, flags).contains(x) <==> exists|i: int| 0 <= i < logs.len() && flags[i]
            && #[trigger] logs[i] == x,
    decreases logs.len(),
{
    if logs.len() > 0 {
        let rest = logs.drop_last();
        delivered_members(rest, flags, x);
        let d = delivered(rest, flags);
        if exists|i: int| 0 <= i < rest.len() && flags[i] && #[trigger] rest[i] == x {
            let i = choose|i: int| 0 <= i < rest.len() && flags[i] && #[trigger] rest[i] == x;
            assert(logs[i] == x);
        }
        if exists|i: int| 0 <= i < logs.len() && flags[i] && #[trigger] logs[i] == x {
            let i = choose|i: int| 0 <= i < logs.len() && flags[i] && #[trigger] logs[i] == x;
            if i < rest.len() {
                assert(rest[i] == x);
            }
        }
        if flags[logs.len() - 1] {
            let w = d.push(logs.last());
            if w.contains(x) && x != logs.last() {
                let k = choose|k: int| 0 <= k < w.len() && w[k] == x;
                assert(d[k] == x);
            }
            if d.contains(x) {
                let k = choose|k: int| 0 <= k < d.len() && d[k] == x;
                assert(w[k] == x);
            }
            if x == logs.last() {
                assert(w[d.len() as int] == x);
            }
        }
    }
}

/// When the stored records are pairwise different, a resend round that
/// clears the delivered ones keeps exactly those whose delivery failed,
/// in their order.
pub proof fn resend_round_keeps_the_failed(logs: Seq<LogMessageView>, flags: Seq<bool>)
    requires
        flags.len() == logs.len(),
        forall|i: int, j: int| 0 <= i < logs.len() && 0 <= j < logs.len() && i != j ==> logs[i] != logs[j],
    ensures
        unsent(logs, delivered(logs, flags)) == undelivered(logs, flags),
{
    lemma_unsent_of_delivered(logs, flags, logs.len() as int);
    assert(logs.subrange(0, logs.len() as int) =~= logs);
}

proof fn lemma_unsent_of_delivered(logs: Seq<LogMessageView>, flags: Seq<bool>, n: int)
    requires
        flags.len() == logs.len(),
        0 <= n <= logs.len(),
        forall|i: int, j: int| 0 <= i < logs.len() && 0 <= j < logs.len() && i != j ==> logs[i] != logs[j],
    ensures
        unsent(logs.subrange(0, n), delivered(logs, flags)) == undelivered(logs.subrange(0, n), flags),
    decreases n,
{
    if n > 0 {
        let pre = logs.subrange(0, n);
        lemma_unsent_of_delivered(logs, flags, n - 1);
        assert(pre.drop_last() =~= logs.subrange(0, n - 1));
        let x = logs[n - 1];
        assert(pre.last() == x);
        delivered_members(logs, flags, x);
        if flags[n - 1] {
            assert(delivered(logs, flags).contains(x));
        } else {
            if delivered(logs, flags).contains(x) {
                let i = choose|i: int| 0 <= i < logs.len() && flags[i] && #[trigger] logs[i] == x;
                assert(i != n - 1);
            }
        }
    }
}

} // verus!
