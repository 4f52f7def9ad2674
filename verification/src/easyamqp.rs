//! Declarations the bot makes on its message broker, as plain values.

use vstd::prelude::*;
use vstd::string::StringExecFns;

verus! {

/// How an exchange routes messages.
#[derive(Debug, PartialEq, Eq)]
pub enum ExchangeType {
    Topic,
    Headers,
    Fanout,
    Direct,
    Custom(String),
}

/// The AMQP name of an exchange type.
pub open spec fn exchange_type_name(t: ExchangeType) -> Seq<char> {
    match t {
        ExchangeType::Topic => "topic"@,
        ExchangeType::Headers => "headers"@,
        ExchangeType::Fanout => "fanout"@,
        ExchangeType::Direct => "direct"@,
        ExchangeType::Custom(x) => x@,
    }
}

impl ExchangeType {
    /// The AMQP name of the exchange type, such as `topic`.
    pub fn into(self) -> (r: String)
        ensures
            r@ == exchange_type_name(self),
    {
        match self {
            ExchangeType::Topic => "topic".to_owned(),
            ExchangeType::Headers => "headers".to_owned(),
            ExchangeType::Fanout => "fanout".to_owned(),
            ExchangeType::Direct => "direct".to_owned(),
            ExchangeType::Custom(x) => x,
        }
    }
}

/// A consumer subscription to a queue.
#[derive(Debug)]
pub struct ConsumeConfig {
    pub queue: String,
    pub consumer_tag: String,
    pub no_local: bool,
    pub no_ack: bool,
    pub exclusive: bool,
    pub no_wait: bool,
}

/// A binding of a queue to an exchange under a routing key.
#[derive(Debug)]
pub struct BindQueueConfig {
    pub queue: String,
    pub exchange: String,
    pub routing_key: Option<String>,
    pub no_wait: bool,
}

/// The declaration of an exchange.
#[derive(Debug)]
pub struct ExchangeConfig {
    pub exchange: String,
    pub exchange_type: ExchangeType,
    pub passive: bool,
    pub durable: bool,
    pub auto_delete: bool,
    pub internal: bool,
    pub no_wait: bool,
}

/// The declaration of a queue.
#[derive(Debug)]
pub struct QueueConfig {
    pub queue: String,
    pub passive: bool,
    pub durable: bool,
    pub exclusive: bool,
    pub auto_delete: bool,
    pub no_wait: bool,
}

/// One step of setting up the broker.
#[derive(Debug)]
pub enum Declaration {
    Exchange(ExchangeConfig),
    Queue(QueueConfig),
    Bind(BindQueueConfig),
}

/// `d` declares the durable topic exchange `name`.
pub open spec fn is_durable_topic_exchange(d: Declaration, name: Seq<char>) -> bool {
    d matches Declaration::Exchange(e) && e.exchange@ == name && e.exchange_type
        == ExchangeType::Topic && !e.passive && e.durable && !e.auto_delete && !e.internal
        && !e.no_wait
}

/// `d` declares the durable, shared queue `name`.
pub open spec fn is_durable_queue(d: Declaration, name: Seq<char>) -> bool {
    d matches Declaration::Queue(q) && q.queue@ == name && !q.passive && q.durable && !q.exclusive
        && !q.auto_delete && !q.no_wait
}

/// `d` binds queue `queue` to exchange `exchange` under `key`.
pub open spec fn is_binding(d: Declaration, queue: Seq<char>, exchange: Seq<char>, key: Seq<char>) -> bool {
    d matches Declaration::Bind(b) && b.queue@ == queue && b.exchange@ == exchange && (
    b.routing_key matches Some(k) && k@ == key) && !b.no_wait
}

/// The declaration of the durable topic exchange `name`.
pub fn durable_topic_exchange(name: &str) -> (d: Declaration)
    ensures
        is_durable_topic_exchange(d, name@),
{
    Declaration::Exchange(
        ExchangeConfig {
            exchange: name.to_owned(),
            exchange_type: ExchangeType::Topic,
            passive: false,
            durable: true,
            auto_delete: false,
            internal: false,
            no_wait: false,
        },
    )
}

/// The declaration of the durable, shared queue `name`.
pub fn durable_queue(name: &str) -> (d: Declaration)
    ensures
        is_durable_queue(d, name@),
{
    Declaration::Queue(
        QueueConfig {
            queue: name.to_owned(),
            passive: false,
            durable: true,
            exclusive: false,
            auto_delete: false,
            no_wait: false,
        },
    )
}

/// The binding of queue `queue` to exchange `exchange` under `key`.
pub fn binding(queue: &str, exchange: &str, key: &str) -> (d: Declaration)
    ensures
        is_binding(d, queue@, exchange@, key@),
{
    Declaration::Bind(
        BindQueueConfig {
            queue: queue.to_owned(),
            exchange: exchange.to_owned(),
            routing_key: Some(key.to_owned()),
            no_wait: false,
        },
    )
}

/// The exchange kinds the broker client can declare.
#[derive(Debug, PartialEq, Eq, Clone, Copy)]
pub enum SupportedExchangeKind {
    Topic,
    Fanout,
}

/// The kind to declare an exchange of type `t` with; only topic and fanout
/// exchanges are declared, any other type is refused.
pub fn supported_exchange_kind(t: &ExchangeType) -> (r: Option<SupportedExchangeKind>)
    ensures
        match *t {
            ExchangeType::Topic => r == Some(SupportedExchangeKind::Topic),
            ExchangeType::Fanout => r == Some(SupportedExchangeKind::Fanout),
            _ => r is None,
        },
{
    match t {
        ExchangeType::Topic => Some(SupportedExchangeKind::Topic),
        ExchangeType::Fanout => Some(SupportedExchangeKind::Fanout),
        _ => None,
    }
}

/// `d` declares the durable fanout exchange `name`.
pub open spec fn is_durable_fanout_exchange(d: Declaration, name: Seq<char>) -> bool {
    d matches Declaration::Exchange(e) && e.exchange@ == name && e.exchange_type
        == ExchangeType::Fanout && !e.passive && e.durable && !e.auto_delete && !e.internal
        && !e.no_wait
}

/// The declaration of the durable fanout exchange `name`.
pub fn durable_fanout_exchange(name: &str) -> (d: Declaration)
    ensures
        is_durable_fanout_exchange(d, name@),
{
    Declaration::Exchange(
        ExchangeConfig {
            exchange: name.to_owned(),
            exchange_type: ExchangeType::Fanout,
            passive: false,
            durable: true,
            auto_delete: false,
            internal: false,
            no_wait: false,
        },
    )
}

/// How a builder for one platform attaches to the broker: the
/// declarations to make, in order, and the subscription.
#[derive(Debug)]
pub struct BuilderSetup {
    pub declarations: Vec<Declaration>,
    pub consume: ConsumeConfig,
}

/// The queue a builder for `system` reads jobs from: its platform's shared
/// queue, or, when it builds all jobs, a private queue named by the broker.
pub open spec fn builder_queue(system: Seq<char>, build_all_jobs: Option<bool>) -> Seq<char> {
    if build_all_jobs != Some(true) {
        "build-inputs-"@ + system
    } else {
        ""@
    }
}

/// The broker setup of a builder for `system`: the durable fanout exchange
/// `build-jobs`; the platform's durable queue, or, when it builds all jobs,
/// a private queue that goes away with the builder; the queue bound to the
/// exchange; and a subscription tagged `<whoami>-builder`.
pub fn builder_setup(system: &str, build_all_jobs: Option<bool>, whoami: &str) -> (s: BuilderSetup)
    ensures
        s.declarations.len() == 3,
        is_durable_fanout_exchange(s.declarations@[0], "build-jobs"@),
        build_all_jobs != Some(true) ==> is_durable_queue(
            s.declarations@[1],
            builder_queue(system@, build_all_jobs),
        ),
        build_all_jobs == Some(true) ==> (s.declarations@[1] matches Declaration::Queue(q) && q.queue@
            == ""@ && !q.passive && !q.durable && q.exclusive && q.auto_delete && !q.no_wait),
        s.declarations@[2] matches Declaration::Bind(b) && b.queue@ == builder_queue(
            system@,
            build_all_jobs,
        ) && b.exchange@ == "build-jobs"@ && b.routing_key is None && !b.no_wait,
        s.consume.queue@ == builder_queue(system@, build_all_jobs),
        s.consume.consumer_tag@ == whoami@ + "-builder"@,
        !s.consume.no_local && !s.consume.no_ack && !s.consume.exclusive && !s.consume.no_wait,
{
    let mut declarations: Vec<Declaration> = Vec::new();
    declarations.push(durable_fanout_exchange("build-jobs"));
    let all = match build_all_jobs {
        Some(b) => b,
        None => false,
    };
    let queue_name = if !all {
        let mut name = "build-inputs-".to_owned();
        name.append(system);
        declarations.push(durable_queue(name.as_str()));
        name
    } else {
        declarations.push(
            Declaration::Queue(
                QueueConfig {
                    queue: "".to_owned(),
                    passive: false,
                    durable: false,
                    exclusive: true,
                    auto_delete: true,
                    no_wait: false,
                },
            ),
        );
        "".to_owned()
    };
    declarations.push(
        Declaration::Bind(
            BindQueueConfig {
                queue: queue_name.clone(),
                exchange: "build-jobs".to_owned(),
                routing_key: None,
                no_wait: false,
            },
        ),
    );
    let mut consumer_tag = whoami.to_owned();
    consumer_tag.append("-builder");
    BuilderSetup {
        declarations,
        consume: ConsumeConfig {
            queue: queue_name,
            consumer_tag,
            no_local: false,
            no_ack: false,
            exclusive: false,
            no_wait: false,
        },
    }
}

/// What a broker session is opened with.
#[derive(Debug)]
pub struct SessionOptions {
    pub host: String,
    pub port: u16,
    pub vhost: String,
    pub login: String,
    pub password: String,
    pub tls: bool,
}

/// The session options for a broker: TLS on port 5671 or plain on 5672,
/// virtual host `/` unless one is configured.
pub fn session_options(
    ssl: bool,
    host: &str,
    virtualhost: &Option<String>,
    username: &str,
    password: &str,
) -> (o: SessionOptions)
    ensures
        o.host@ == host@,
        o.port == (if ssl { 5671u16 } else { 5672u16 }),
        o.vhost@ == (match virtualhost {
            Some(v) => v@,
            None => "/"@,
        }),
        o.login@ == username@,
        o.password@ == password@,
        o.tls == ssl,
{
    SessionOptions {
        host: host.to_owned(),
        port: if ssl {
            5671
        } else {
            5672
        },
        vhost: match virtualhost {
            Some(v) => v.clone(),
            None => "/".to_owned(),
        },
        login: username.to_owned(),
        password: password.to_owned(),
        tls: ssl,
    }
}

} // verus!
