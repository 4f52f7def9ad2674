//! What each of the ofborg services declares on the broker before it
//! starts consuming, and the subscription it consumes with.

use vstd::prelude::*;
use vstd::string::StringExecFns;

use crate::easyamqp::{
    binding, durable_fanout_exchange, durable_queue, durable_topic_exchange, is_binding,
    is_durable_fanout_exchange, is_durable_queue, is_durable_topic_exchange, BindQueueConfig,
    ConsumeConfig, Declaration,
};
use crate::systems::{build_queue_name, System};

verus! {

/// A service's broker setup: what it declares, in order, and the
/// subscription it consumes with.
#[derive(Debug)]
pub struct ServiceSetup {
    pub declarations: Vec<Declaration>,
    pub consume: ConsumeConfig,
}

/// `d` binds queue `queue` to exchange `exchange` with no routing key.
pub open spec fn is_plain_binding(d: Declaration, queue: Seq<char>, exchange: Seq<char>) -> bool {
    d matches Declaration::Bind(b) && b.queue@ == queue && b.exchange@ == exchange
        && b.routing_key is None && !b.no_wait
}

/// `c` consumes `queue` under the tag `tag`, acknowledging by hand.
pub open spec fn is_consumer(c: ConsumeConfig, queue: Seq<char>, tag: Seq<char>) -> bool {
    &&& c.queue@ == queue
    &&& c.consumer_tag@ == tag
    &&& !c.no_local
    &&& !c.no_ack
    &&& !c.exclusive
    &&& !c.no_wait
}

/// The binding of queue `queue` to exchange `exchange` with no routing key.
pub fn plain_binding(queue: &str, exchange: &str) -> (d: Declaration)
    ensures
        is_plain_binding(d, queue@, exchange@),
{
    Declaration::Bind(
        BindQueueConfig {
            queue: queue.to_owned(),
            exchange: exchange.to_owned(),
            routing_key: None,
            no_wait: false,
        },
    )
}

/// The subscription to `queue` of the service `service` run by `whoami`:
/// tagged `<whoami>-<service>`.
pub fn consumer(queue: &str, whoami: &str, service: &str) -> (c: ConsumeConfig)
    ensures
        is_consumer(c, queue@, whoami@ + "-"@ + service@),
{
    let mut tag = whoami.to_owned();
    tag.append("-");
    tag.append(service);
    ConsumeConfig {
        queue: queue.to_owned(),
        consumer_tag: tag,
        no_local: false,
        no_ack: false,
        exclusive: false,
        no_wait: false,
    }
}

/// The platforms whose build queues the comment filter declares, in order.
pub open spec fn known_systems() -> Seq<System> {
    seq![System::X8664Darwin, System::X8664Linux, System::Aarch64Darwin, System::Aarch64Linux]
}

fn build_queue(s: System) -> (d: Declaration)
    ensures
        is_durable_queue(d, build_queue_name(s)),
{
    let mut name = "build-inputs-".to_owned();
    let sys = s.name();
    name.append(sys.as_str());
    durable_queue(name.as_str())
}

/// The comment filter's setup: the `github-events` topic exchange, the
/// `build-jobs` and `build-results` fanout exchanges, the `build-inputs`
/// queue bound to comment events, and the build queue of every known
/// platform; it consumes `build-inputs`.
pub fn comment_filter_setup(whoami: &str) -> (s: ServiceSetup)
    ensures
        s.declarations.len() == 9,
        is_durable_topic_exchange(s.declarations@[0], "github-events"@),
        is_durable_fanout_exchange(s.declarations@[1], "build-jobs"@),
        is_durable_queue(s.declarations@[2], "build-inputs"@),
        is_binding(s.declarations@[3], "build-inputs"@, "github-events"@, "issue_comment.*"@),
        is_durable_fanout_exchange(s.declarations@[4], "build-results"@),
        forall|i: int|
            0 <= i < 4 ==> is_durable_queue(
                #[trigger] s.declarations@[5 + i],
                build_queue_name(known_systems()[i]),
            ),
        is_consumer(s.consume, "build-inputs"@, whoami@ + "-"@ + "github-comment-filter"@),
{
    let mut d: Vec<Declaration> = Vec::new();
    d.push(durable_topic_exchange("github-events"));
    d.push(durable_fanout_exchange("build-jobs"));
    d.push(durable_queue("build-inputs"));
    d.push(binding("build-inputs", "github-events", "issue_comment.*"));
    d.push(durable_fanout_exchange("build-results"));
    d.push(build_queue(System::X8664Darwin));
    d.push(build_queue(System::X8664Linux));
    d.push(build_queue(System::Aarch64Darwin));
    d.push(build_queue(System::Aarch64Linux));
    assert forall|i: int| 0 <= i < 4 implies is_durable_queue(
        #[trigger] d@[5 + i],
        build_queue_name(known_systems()[i]),
    ) by {
        if i == 0 {
            assert(d@[5 + i] == d@[5]);
        } else if i == 1 {
            assert(d@[5 + i] == d@[6]);
        } else if i == 2 {
            assert(d@[5 + i] == d@[7]);
        } else {
            assert(d@[5 + i] == d@[8]);
        }
    }
    ServiceSetup {
        declarations: d,
        consume: consumer("build-inputs", whoami, "github-comment-filter"),
    }
}

/// The evaluation filter's setup: the `github-events` topic exchange, the
/// `mass-rebuild-check-jobs` queue it feeds, and the
/// `mass-rebuild-check-inputs` queue bound to pull request events of
/// `nixos` repositories, which it consumes.
pub fn evaluation_filter_setup(whoami: &str) -> (s: ServiceSetup)
    ensures
        s.declarations.len() == 4,
        is_durable_topic_exchange(s.declarations@[0], "github-events"@),
        is_durable_queue(s.declarations@[1], "mass-rebuild-check-jobs"@),
        is_durable_queue(s.declarations@[2], "mass-rebuild-check-inputs"@),
        is_binding(
            s.declarations@[3],
            "mass-rebuild-check-inputs"@,
            "github-events"@,
            "pull_request.nixos/*"@,
        ),
        is_consumer(s.consume, "mass-rebuild-check-inputs"@, whoami@ + "-"@ + "evaluation-filter"@),
{
    let mut d: Vec<Declaration> = Vec::new();
    d.push(durable_topic_exchange("github-events"));
    d.push(durable_queue("mass-rebuild-check-jobs"));
    d.push(durable_queue("mass-rebuild-check-inputs"));
    d.push(binding("mass-rebuild-check-inputs", "github-events", "pull_request.nixos/*"));
    ServiceSetup {
        declarations: d,
        consume: consumer("mass-rebuild-check-inputs", whoami, "evaluation-filter"),
    }
}

/// The mass rebuilder's setup: the `mass-rebuild-check-jobs` queue, which
/// it consumes, and, when it hands evaluations to Hydra, the
/// `hydra-eval-jobs` queue.
pub fn mass_rebuilder_setup(whoami: &str, hydra: bool) -> (s: ServiceSetup)
    ensures
        s.declarations.len() == (if hydra { 2int } else { 1int }),
        is_durable_queue(s.declarations@[0], "mass-rebuild-check-jobs"@),
        hydra ==> is_durable_queue(s.declarations@[1], "hydra-eval-jobs"@),
        is_consumer(s.consume, "mass-rebuild-check-jobs"@, whoami@ + "-"@ + "mass-rebuild-checker"@),
{
    let mut d: Vec<Declaration> = Vec::new();
    d.push(durable_queue("mass-rebuild-check-jobs"));
    if hydra {
        d.push(durable_queue("hydra-eval-jobs"));
    }
    ServiceSetup {
        declarations: d,
        consume: consumer("mass-rebuild-check-jobs", whoami, "mass-rebuild-checker"),
    }
}

/// The setup of a service that consumes everything published to the
/// fanout exchange `exchange` through the queue `queue`.
fn fanout_consumer_setup(exchange: &str, queue: &str, whoami: &str, service: &str) -> (s:
    ServiceSetup)
    ensures
        s.declarations.len() == 3,
        is_durable_fanout_exchange(s.declarations@[0], exchange@),
        is_durable_queue(s.declarations@[1], queue@),
        is_plain_binding(s.declarations@[2], queue@, exchange@),
        is_consumer(s.consume, queue@, whoami@ + "-"@ + service@),
{
    let mut d: Vec<Declaration> = Vec::new();
    d.push(durable_fanout_exchange(exchange));
    d.push(durable_queue(queue));
    d.push(plain_binding(queue, exchange));
    ServiceSetup { declarations: d, consume: consumer(queue, whoami, service) }
}

/// The comment poster's setup: the `build-results` fanout exchange and the
/// `build-results` queue bound to it, which it consumes.
pub fn comment_poster_setup(whoami: &str) -> (s: ServiceSetup)
    ensures
        s.declarations.len() == 3,
        is_durable_fanout_exchange(s.declarations@[0], "build-results"@),
        is_durable_queue(s.declarations@[1], "build-results"@),
        is_plain_binding(s.declarations@[2], "build-results"@, "build-results"@),
        is_consumer(s.consume, "build-results"@, whoami@ + "-"@ + "github-comment-poster"@),
{
    fanout_consumer_setup("build-results", "build-results", whoami, "github-comment-poster")
}

/// The stats collector's setup: the `stats` fanout exchange and the
/// `stats-events` queue bound to it, which it consumes.
pub fn stats_setup(whoami: &str) -> (s: ServiceSetup)
    ensures
        s.declarations.len() == 3,
        is_durable_fanout_exchange(s.declarations@[0], "stats"@),
        is_durable_queue(s.declarations@[1], "stats-events"@),
        is_plain_binding(s.declarations@[2], "stats-events"@, "stats"@),
        is_consumer(s.consume, "stats-events"@, whoami@ + "-"@ + "prometheus-stats-collector"@),
{
    fanout_consumer_setup("stats", "stats-events", whoami, "prometheus-stats-collector")
}

/// The labeler's setup: the `label-jobs` fanout exchange and the
/// `label-jobs` queue bound to it, which it consumes.
pub fn labeler_setup(whoami: &str) -> (s: ServiceSetup)
    ensures
        s.declarations.len() == 3,
        is_durable_fanout_exchange(s.declarations@[0], "label-jobs"@),
        is_durable_queue(s.declarations@[1], "label-jobs"@),
        is_plain_binding(s.declarations@[2], "label-jobs"@, "label-jobs"@),
        is_consumer(s.consume, "label-jobs"@, whoami@ + "-"@ + "github-labeler"@),
{
    fanout_consumer_setup("label-jobs", "label-jobs", whoami, "github-labeler")
}

/// The labels the labeler applies: each issue label it knows and the
/// label it applies for it, in order. Labels not listed are not applied.
pub open spec fn label_pairs() -> Seq<(Seq<char>, Seq<char>)> {
    seq![
        ("bug"@, "0.kind: bug"@),
        ("enhancement"@, "0.kind: enhancement"@),
        ("question"@, "0.kind: question"@),
        ("regression"@, "0.kind: regression"@),
    ]
}

/// The label map the labeler is started with, as [`label_pairs`] lists it.
pub fn label_map() -> (m: Vec<(String, String)>)
    ensures
        m.len() == label_pairs().len(),
        forall|i: int|
            0 <= i < m.len() ==> (#[trigger] m@[i]).0@ == label_pairs()[i].0 && m@[i].1@
                == label_pairs()[i].1,
{
    let mut m: Vec<(String, String)> = Vec::new();
    m.push(("bug".to_owned(), "0.kind: bug".to_owned()));
    m.push(("enhancement".to_owned(), "0.kind: enhancement".to_owned()));
    m.push(("question".to_owned(), "0.kind: question".to_owned()));
    m.push(("regression".to_owned(), "0.kind: regression".to_owned()));
    m
}

} // verus!
