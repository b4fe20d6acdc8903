//! Configuration of an endpoint that writes to a Kafka topic.
use vstd::prelude::*;

verus! {

/// Key of the client option that lists the brokers to connect to.
pub const BOOTSTRAP_SERVERS: &'static str = "bootstrap.servers";

/// Brokers to connect to when neither the options nor the environment name any.
pub const DEFAULT_BROKERS: &'static str = "localhost";

/// The brokers to fall back on: those that the environment names, else
/// `localhost`.
pub open spec fn fallback_brokers(env_brokers: Option<&str>) -> Seq<char> {
    match env_brokers {
        Some(b) => b@,
        None => DEFAULT_BROKERS@,
    }
}

/// Default ceiling on the number of unacknowledged messages.
pub fn default_max_inflight_messages() -> (r: u32)
    ensures
        r == 1000,
{
    1000
}

/// Log level of the Kafka client.
#[derive(Clone, Copy, Debug, PartialEq, Eq, Structural)]
pub enum KafkaLogLevel {
    Emerg,
    Alert,
    Critical,
    Error,
    Warning,
    Notice,
    Info,
    Debug,
}

/// Why a configuration was rejected.
#[derive(Clone, Copy, Debug, PartialEq, Eq, Structural)]
pub enum ConfigError {
    /// `max_inflight_messages` is zero, so the endpoint could never send.
    ZeroInflightLimit,
}

/// Configuration for writing data to a Kafka topic.
pub struct KafkaOutputConfig {
    /// Options passed directly to the Kafka client, as (key, value) pairs
    /// with distinct keys, in the order in which they were set.
    pub kafka_options: Vec<(String, String)>,
    /// Topic to write to.
    pub topic: String,
    /// The log level of the client; when absent, the client's default.
    pub log_level: Option<KafkaLogLevel>,
    /// Maximum number of unacknowledged messages buffered by the producer.
    pub max_inflight_messages: u32,
}

/// The options as (key, value) pairs of character sequences.
pub open spec fn options_view(opts: Seq<(String, String)>) -> Seq<(Seq<char>, Seq<char>)> {
    opts.map_values(|p: (String, String)| (p.0@, p.1@))
}

/// Whether `key` is set among `opts`.
pub open spec fn has_key(opts: Seq<(Seq<char>, Seq<char>)>, key: Seq<char>) -> bool {
    exists|i: int| 0 <= i < opts.len() && #[trigger] opts[i].0 == key
}

/// No key is set twice.
pub open spec fn keys_distinct(opts: Seq<(Seq<char>, Seq<char>)>) -> bool {
    forall|i: int, j: int|
        0 <= i < opts.len() && 0 <= j < opts.len() && i != j ==> #[trigger] opts[i].0
            != #[trigger] opts[j].0
}

/// `opts` with `key` set to `val`, unless `key` is already set.
pub open spec fn with_option_if_missing(
    opts: Seq<(Seq<char>, Seq<char>)>,
    key: Seq<char>,
    val: Seq<char>,
) -> Seq<(Seq<char>, Seq<char>)> {
    if has_key(opts, key) {
        opts
    } else {
        opts.push((key, val))
    }
}

impl KafkaOutputConfig {
    /// The client options, viewed as character sequences.
    pub open spec fn options(&self) -> Seq<(Seq<char>, Seq<char>)> {
        options_view(self.kafka_options@)
    }

    /// The option keys are distinct.
    pub open spec fn wf(&self) -> bool {
        keys_distinct(self.options())
    }

    /// Set `option` to `val`, if missing.
    pub fn set_option_if_missing(&mut self, option: &str, val: &str)
        requires
            old(self).wf(),
        ensures
            final(self).wf(),
            final(self).options() == with_option_if_missing(old(self).options(), option@, val@),
            final(self).topic == old(self).topic,
            final(self).log_level == old(self).log_level,
            final(self).max_inflight_messages == old(self).max_inflight_messages,
    {
        let key = option.to_string();
        let n = self.kafka_options.len();
        let mut i: usize = 0;
        while i < n
            invariant
                *self == *old(self),
                self.wf(),
                n == self.kafka_options@.len(),
                i <= n,
                key@ == option@,
                forall|j: int| 0 <= j < i ==> #[trigger] self.options()[j].0 != option@,
            decreases n - i,
        {
            if self.kafka_options[i].0 == key {
                assert(self.options()[i as int].0 == option@);
                return;
            }
            i = i + 1;
        }
        let ghost before = self.options();
        self.kafka_options.push((key, val.to_string()));
        assert(self.options() =~= before.push((option@, val@)));
    }

    /// Validate the configuration and set the default option values that the
    /// endpoint needs: `bootstrap.servers` defaults to `env_brokers`, the
    /// brokers that the environment names, or to `localhost` without them.
    pub fn validate(&mut self, env_brokers: Option<&str>) -> (r: Result<(), ConfigError>)
        requires
            old(self).wf(),
        ensures
            final(self).wf(),
            old(self).max_inflight_messages == 0 ==> r == Err::<(), ConfigError>(
                ConfigError::ZeroInflightLimit,
            ) && final(self).options() == old(self).options(),
            old(self).max_inflight_messages != 0 ==> r == Ok::<(), ConfigError>(())
                && final(self).options() == with_option_if_missing(
                old(self).options(),
                BOOTSTRAP_SERVERS@,
                fallback_brokers(env_brokers),
            ),
            final(self).topic == old(self).topic,
            final(self).log_level == old(self).log_level,
            final(self).max_inflight_messages == old(self).max_inflight_messages,
    {
        if self.max_inflight_messages == 0 {
            return Err(ConfigError::ZeroInflightLimit);
        }
        let brokers = match env_brokers {
            Some(b) => b,
            None => DEFAULT_BROKERS,
        };
        self.set_option_if_missing(BOOTSTRAP_SERVERS, brokers);
        Ok(())
    }
}

} // verus!
