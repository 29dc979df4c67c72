//! Kafka connection settings and the table of named configurations.

use vstd::prelude::*;

use crate::string_map::StrMap;
use crate::text::{bool_text, bool_to_text, decimal, decimal_text};

verus! {

/// The settings of one Kafka connection.
#[derive(Debug)]
pub struct KafkaConfig {
    pub bootstrap_servers: String,
    pub acks: String,
    pub enable_idempotence: bool,
    pub retries: u32,
    pub message_timeout_ms: u64,
    pub topic: String,
    pub security_protocol: String,
    pub sasl_mechanism: String,
    pub sasl_username: String,
    pub sasl_password: String,
    pub ssl_ca_location: String,
}

impl Clone for KafkaConfig {
    fn clone(&self) -> (r: Self)
        ensures
            r == *self,
    {
        KafkaConfig {
            bootstrap_servers: self.bootstrap_servers.clone(),
            acks: self.acks.clone(),
            enable_idempotence: self.enable_idempotence,
            retries: self.retries,
            message_timeout_ms: self.message_timeout_ms,
            topic: self.topic.clone(),
            security_protocol: self.security_protocol.clone(),
            sasl_mechanism: self.sasl_mechanism.clone(),
            sasl_username: self.sasl_username.clone(),
            sasl_password: self.sasl_password.clone(),
            ssl_ca_location: self.ssl_ca_location.clone(),
        }
    }
}

/// The producer properties that a configuration stands for, as pairs of
/// property name and value, in the order they are handed to the client.
pub open spec fn producer_properties(c: KafkaConfig) -> Seq<(Seq<char>, Seq<char>)> {
    seq![
        ("bootstrap.servers"@, c.bootstrap_servers@),
        ("acks"@, c.acks@),
        ("enable.idempotence"@, bool_text(c.enable_idempotence)),
        ("retries"@, decimal(c.retries as nat)),
        ("message.timeout.ms"@, decimal(c.message_timeout_ms as nat)),
        ("security.protocol"@, c.security_protocol@),
        ("sasl.mechanism"@, c.sasl_mechanism@),
        ("sasl.username"@, c.sasl_username@),
        ("sasl.password"@, c.sasl_password@),
        ("ssl.ca.location"@, c.ssl_ca_location@),
    ]
}

/// The texts of a list of property pairs.
pub open spec fn pair_texts(s: Seq<(String, String)>) -> Seq<(Seq<char>, Seq<char>)> {
    s.map_values(|p: (String, String)| (p.0@, p.1@))
}

fn property(name: &str, value: String) -> (r: (String, String))
    ensures
        r.0@ == name@,
        r.1@ == value@,
{
    (String::from_str(name), value)
}

impl KafkaConfig {
    /// The producer properties of this configuration, named as the Kafka
    /// client expects them; numbers and flags are rendered as text.
    pub fn producer_settings(&self) -> (r: Vec<(String, String)>)
        ensures
            pair_texts(r@) == producer_properties(*self),
    {
        let mut v: Vec<(String, String)> = Vec::new();
        v.push(property("bootstrap.servers", self.bootstrap_servers.clone()));
        v.push(property("acks", self.acks.clone()));
        v.push(property("enable.idempotence", bool_to_text(self.enable_idempotence)));
        v.push(property("retries", decimal_text(self.retries as u64)));
        v.push(property("message.timeout.ms", decimal_text(self.message_timeout_ms)));
        v.push(property("security.protocol", self.security_protocol.clone()));
        v.push(property("sasl.mechanism", self.sasl_mechanism.clone()));
        v.push(property("sasl.username", self.sasl_username.clone()));
        v.push(property("sasl.password", self.sasl_password.clone()));
        v.push(property("ssl.ca.location", self.ssl_ca_location.clone()));
        proof {
            assert(pair_texts(v@) =~= producer_properties(*self));
        }
        v
    }
}

/// The table that a list of named configurations stands for: each name
/// maps to the last configuration given under it.
pub open spec fn config_table(entries: Seq<(String, KafkaConfig)>) -> Map<Seq<char>, KafkaConfig>
    decreases entries.len(),
{
    if entries.len() == 0 {
        Map::empty()
    } else {
        config_table(entries.drop_last()).insert(entries.last().0@, entries.last().1)
    }
}

/// The application's configuration: Kafka connections by name.
#[derive(Debug)]
pub struct AppConfig {
    pub kafka: StrMap<KafkaConfig>,
}

impl AppConfig {
    /// The configuration holding the given named Kafka connections; where
    /// a name comes twice, the later connection replaces the earlier.
    pub fn new(kafka: Vec<(String, KafkaConfig)>) -> (r: Self)
        ensures
            r.kafka@ == config_table(kafka@),
    {
        let ghost all = kafka@;
        proof { assert(kafka.len() == kafka@.len()); }
        let mut rest = kafka;
        let mut table: StrMap<KafkaConfig> = StrMap::new();
        let mut n: usize = 0;
        while rest.len() > 0
            invariant
                n <= all.len(),
                rest@ == all.subrange(n as int, all.len() as int),
                rest@.len() == all.len() - n,
                all.len() <= usize::MAX,
                table@ == config_table(all.subrange(0, n as int)),
            decreases rest@.len(),
        {
            let (name, config) = rest.remove(0);
            proof {
                assert(all[n as int] == (name, config));
                assert(all.subrange(0, n + 1).drop_last() =~= all.subrange(0, n as int));
            }
            table.insert(name, config);
            n = n + 1;
            proof {
                assert(rest@ =~= all.subrange(n as int, all.len() as int));
            }
        }
        proof {
            assert(all.subrange(0, n as int) =~= all);
        }
        AppConfig { kafka: table }
    }

    /// A copy of the configuration named `config_name`, if there is one.
    pub fn get_kafka_config(&self, config_name: &str) -> (r: Option<KafkaConfig>)
        ensures
            r == (if self.kafka@.contains_key(config_name@) {
                Some(self.kafka@[config_name@])
            } else {
                None
            }),
    {
        match self.kafka.get(config_name) {
            Some(c) => Some(c.clone()),
            None => None,
        }
    }
}

} // verus!
