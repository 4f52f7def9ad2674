use ofborg::easyamqp::{Declaration, ExchangeType};
use ofborg::services::{
    comment_filter_setup, comment_poster_setup, evaluation_filter_setup, label_map, labeler_setup,
    mass_rebuilder_setup, stats_setup,
};

fn queue_name(d: &Declaration) -> Option<String> {
    match d {
        Declaration::Queue(q) => Some(q.queue.clone()),
        _ => None,
    }
}

#[test]
fn comment_filter_declares_every_build_queue() {
    let s = comment_filter_setup("me");
    assert_eq!(s.declarations.len(), 9);
    match &s.declarations[0] {
        Declaration::Exchange(e) => {
            assert_eq!(e.exchange, "github-events");
            assert_eq!(e.exchange_type, ExchangeType::Topic);
            assert!(e.durable);
        }
        other => panic!("unexpected {other:?}"),
    }
    match &s.declarations[3] {
        Declaration::Bind(b) => {
            assert_eq!(b.queue, "build-inputs");
            assert_eq!(b.exchange, "github-events");
            assert_eq!(b.routing_key.as_deref(), Some("issue_comment.*"));
        }
        other => panic!("unexpected {other:?}"),
    }
    let queues: Vec<String> = s.declarations[5..].iter().filter_map(queue_name).collect();
    assert_eq!(
        queues,
        vec![
            "build-inputs-x86_64-darwin",
            "build-inputs-x86_64-linux",
            "build-inputs-aarch64-darwin",
            "build-inputs-aarch64-linux",
        ]
    );
    assert_eq!(s.consume.queue, "build-inputs");
    assert_eq!(s.consume.consumer_tag, "me-github-comment-filter");
    assert!(!s.consume.no_ack);
}

#[test]
fn evaluation_filter_consumes_nixos_pull_requests() {
    let s = evaluation_filter_setup("me");
    assert_eq!(s.declarations.len(), 4);
    assert_eq!(queue_name(&s.declarations[1]).as_deref(), Some("mass-rebuild-check-jobs"));
    match &s.declarations[3] {
        Declaration::Bind(b) => {
            assert_eq!(b.queue, "mass-rebuild-check-inputs");
            assert_eq!(b.routing_key.as_deref(), Some("pull_request.nixos/*"));
        }
        other => panic!("unexpected {other:?}"),
    }
    assert_eq!(s.consume.consumer_tag, "me-evaluation-filter");
}

#[test]
fn mass_rebuilder_declares_the_hydra_queue_only_with_hydra() {
    let without = mass_rebuilder_setup("me", false);
    assert_eq!(without.declarations.len(), 1);
    let with = mass_rebuilder_setup("me", true);
    assert_eq!(with.declarations.len(), 2);
    assert_eq!(queue_name(&with.declarations[1]).as_deref(), Some("hydra-eval-jobs"));
    assert_eq!(with.consume.queue, "mass-rebuild-check-jobs");
    assert_eq!(with.consume.consumer_tag, "me-mass-rebuild-checker");
}

#[test]
fn fanout_consumers_bind_without_a_key() {
    let poster = comment_poster_setup("me");
    match &poster.declarations[2] {
        Declaration::Bind(b) => {
            assert_eq!(b.queue, "build-results");
            assert_eq!(b.exchange, "build-results");
            assert_eq!(b.routing_key, None);
        }
        other => panic!("unexpected {other:?}"),
    }
    assert_eq!(poster.consume.consumer_tag, "me-github-comment-poster");
    let stats = stats_setup("me");
    assert_eq!(queue_name(&stats.declarations[1]).as_deref(), Some("stats-events"));
    assert_eq!(stats.consume.consumer_tag, "me-prometheus-stats-collector");
}

#[test]
fn labeler_consumes_label_jobs_with_four_known_labels() {
    let s = labeler_setup("me");
    assert_eq!(queue_name(&s.declarations[1]).as_deref(), Some("label-jobs"));
    assert_eq!(s.consume.consumer_tag, "me-github-labeler");
    let m = label_map();
    assert_eq!(m.len(), 4);
    assert_eq!(m[0], ("bug".to_owned(), "0.kind: bug".to_owned()));
    assert_eq!(m[3], ("regression".to_owned(), "0.kind: regression".to_owned()));
}
