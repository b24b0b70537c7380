use vstd::prelude::*;

use rdkafka::producer::{FutureProducer, Producer};
use rdkafka::ClientConfig;

use vstd::string::StringExecFns;

use crate::config::{TaskConfig, TaskType};
use crate::error::{ConstructionError, SendError};
use crate::url::{resolve_url, url_of};

verus! {

/// reqwest's HTTP client, carried through unopened: sends are issued with it
/// outside this library.
#[verifier::external_type_specification]
#[verifier::external_body]
pub struct ExClient(reqwest::Client);

/// A broker producer. Verus cannot take rdkafka's `FutureProducer` as a
/// declared type (its bounds name rdkafka's traits), so it is held here,
/// out of Verus's sight; nothing verified looks inside.
#[verifier::external_body]
pub struct BrokerProducer {
    pub inner: FutureProducer,
}

/// Relies on reqwest::Client::new. It panics only where a TLS backend or a
/// resolver configuration fails to load; this crate enables no TLS backend
/// and keeps reqwest's default resolver.
pub assume_specification[ reqwest::Client::new ]() -> reqwest::Client;

/// The text of an optional string.
pub open spec fn opt_view(s: Option<String>) -> Option<Seq<char>> {
    match s {
        Some(t) => Some(t@),
        None => None,
    }
}

/// Sends each payload to one HTTP address.
pub struct HttpSender {
    client: reqwest::Client,
    url: String,
}

impl HttpSender {
    /// A sender bound to `host` joined with `path`; it cannot fail.
    pub fn new(host: String, path: Option<String>) -> (r: HttpSender)
        ensures
            r.url_spec() == url_of(host@, opt_view(path)),
    {
        let url = match &path {
            None => resolve_url(host.as_str(), None),
            Some(p) => resolve_url(host.as_str(), Some(p.as_str())),
        };
        HttpSender { client: reqwest::Client::new(), url }
    }

    /// The address every send goes to.
    pub closed spec fn url_spec(&self) -> Seq<char> {
        self.url@
    }

    /// The address every send goes to.
    pub fn url(&self) -> (r: &String)
        ensures
            r@ == self.url_spec(),
    {
        &self.url
    }

    /// The client the sends are issued with.
    pub fn client(&self) -> &reqwest::Client {
        &self.client
    }
}

/// The outcome of one HTTP send, from the status of the answer: only the
/// success range `200..=299` counts as delivered.
pub fn http_outcome(status: u16) -> (r: Result<(), SendError>)
    ensures
        200 <= status <= 299 <==> r is Ok,
        r is Err ==> r == Err::<(), SendError>(SendError::Status(status)),
{
    if 200 <= status && status <= 299 {
        Ok(())
    } else {
        Err(SendError::Status(status))
    }
}

/// One setting of a broker client: a key and its value.
pub open spec fn setting(key: &str, value: Seq<char>) -> (Seq<char>, Seq<char>) {
    (key@, value)
}

/// The settings a broker producer is built with: where to connect, and how
/// long, in milliseconds, a message may wait for its acknowledgment.
pub open spec fn producer_settings_of(broker: Seq<char>) -> Seq<(Seq<char>, Seq<char>)> {
    seq![setting("bootstrap.servers", broker), setting("message.timeout.ms", "5000"@)]
}

/// The producer settings for `broker`, as key and value pairs.
pub fn producer_settings(broker: &str) -> (r: Vec<(String, String)>)
    ensures
        r@.len() == producer_settings_of(broker@).len(),
        forall|i: int|
            0 <= i < r@.len() ==> (#[trigger] r@[i].0@, r@[i].1@) == producer_settings_of(
                broker@,
            )[i],
{
    let mut r: Vec<(String, String)> = Vec::new();
    r.push((String::from_str("bootstrap.servers"), String::from_str(broker)));
    r.push((String::from_str("message.timeout.ms"), String::from_str("5000")));
    r
}

/// Relies on rdkafka: `ClientConfig` collected from key and value pairs, then
/// `ClientConfig::create` for a `FutureProducer`. The error is rdkafka's text.
#[verifier::external_body]
fn create_producer(settings: &Vec<(String, String)>) -> (r: Result<BrokerProducer, String>) {
    let config: ClientConfig = settings.iter().cloned().collect();
    match config.create() {
        Ok(inner) => Ok(BrokerProducer { inner }),
        Err(e) => Err(e.to_string()),
    }
}

/// How long, in milliseconds, building a broker sink waits for the broker
/// to answer.
pub const CONNECT_TIMEOUT_MS: u64 = 5000;

/// Relies on rdkafka's `Client::fetch_metadata`: it asks the broker for its
/// metadata and fails where no answer comes within `timeout_ms`.
/// rdkafka narrows the timeout to an `i32` of milliseconds, where a negative
/// value means waiting forever, so it is kept within `i32::MAX`.
#[verifier::external_body]
fn probe_broker(producer: &BrokerProducer, timeout_ms: u64) -> (r: Result<(), String>)
    requires
        timeout_ms <= i32::MAX as u64,
{
    match producer.inner.client().fetch_metadata(None, std::time::Duration::from_millis(timeout_ms)) {
        Ok(_) => Ok(()),
        Err(e) => Err(e.to_string()),
    }
}

/// Publishes each payload to one topic of a broker.
pub struct KafkaSender {
    producer: BrokerProducer,
    broker: String,
    topic: String,
}

impl KafkaSender {
    /// A sender that publishes to `topic` through a producer for `broker`;
    /// fails where the producer cannot be created or the broker does not
    /// answer within the connect timeout.
    pub fn new(broker: String, topic: String) -> (r: Result<KafkaSender, ConstructionError>)
        ensures
            r is Ok ==> r->Ok_0.topic_spec() == topic@ && r->Ok_0.broker_spec() == broker@
                && r->Ok_0.settings_spec() == producer_settings_of(broker@),
    {
        let settings = producer_settings(broker.as_str());
        match create_producer(&settings) {
            Ok(producer) => match probe_broker(&producer, CONNECT_TIMEOUT_MS) {
                Ok(()) => Ok(KafkaSender { producer, broker, topic }),
                Err(e) => Err(ConstructionError::Broker(e)),
            },
            Err(e) => Err(ConstructionError::Broker(e)),
        }
    }

    /// The bootstrap address the producer was built for.
    pub closed spec fn broker_spec(&self) -> Seq<char> {
        self.broker@
    }

    /// The settings the producer was created with.
    pub open spec fn settings_spec(&self) -> Seq<(Seq<char>, Seq<char>)> {
        producer_settings_of(self.broker_spec())
    }

    /// The bootstrap address the producer was built for.
    pub fn broker(&self) -> (r: &String)
        ensures
            r@ == self.broker_spec(),
    {
        &self.broker
    }

    /// The topic every payload goes to.
    pub closed spec fn topic_spec(&self) -> Seq<char> {
        self.topic@
    }

    /// The topic every payload goes to.
    pub fn topic(&self) -> (r: &String)
        ensures
            r@ == self.topic_spec(),
    {
        &self.topic
    }

    /// The producer the payloads are published with.
    pub fn producer(&self) -> &BrokerProducer {
        &self.producer
    }
}

/// A constructed sink: one of the two transports.
pub enum Sink {
    Http(HttpSender),
    Kafka(KafkaSender),
}

/// The text of an optional topic, empty where there is none.
pub open spec fn topic_or_empty(topic: Option<String>) -> Seq<char> {
    match topic {
        Some(t) => t@,
        None => Seq::empty(),
    }
}

/// Builds the sink a task describes. An HTTP sink always comes out; a broker
/// sink fails where its producer cannot be created.
pub fn create_sender(config: &TaskConfig) -> (r: Result<Sink, ConstructionError>)
    ensures
        config.task_type == TaskType::Http ==> r is Ok && r->Ok_0 is Http
            && r->Ok_0->Http_0.url_spec() == url_of(config.host@, opt_view(config.path)),
        config.task_type == TaskType::Kafka && r is Ok ==> r->Ok_0 is Kafka
            && r->Ok_0->Kafka_0.topic_spec() == topic_or_empty(config.topic)
            && r->Ok_0->Kafka_0.broker_spec() == config.host@,
{
    match config.task_type {
        TaskType::Http => {
            let host = String::from_str(config.host.as_str());
            let path = match &config.path {
                None => None,
                Some(p) => Some(String::from_str(p.as_str())),
            };
            Ok(Sink::Http(HttpSender::new(host, path)))
        },
        TaskType::Kafka => {
            let host = String::from_str(config.host.as_str());
            let topic = match &config.topic {
                None => String::new(),
                Some(t) => String::from_str(t.as_str()),
            };
            match KafkaSender::new(host, topic) {
                Ok(k) => Ok(Sink::Kafka(k)),
                Err(e) => Err(e),
            }
        },
    }
}

} // verus!
