use ofborg::checkout::{cached_cloner, listing_result, push_path, CachedProjectCo};
use ofborg::clone::{after_checkout_attempt, clone_repo_args, CheckoutAttempt, CheckoutStep};
use ofborg::cmdlog::{LastNLogger, Logger, RabbitMQLogger};
use ofborg::easyamqp::{builder_setup, session_options, Declaration, ExchangeType};
use ofborg::evalchecker::EvalChecker;
use ofborg::ghevent::{opened_pull_request_event, split_repo_name, PullRequestRef};
use ofborg::logapi::{
    classify_log_file, log_url, path_is_within, requested_log_dir, AttemptFact, Attempts,
    LogFileKind,
};
use ofborg::maintainers::{ImpactedMaintainers, Maintainer, Package};
use ofborg::nix::{Nix, Operation};
use ofborg::partition_result;

#[test]
fn last_ten_lines_are_kept() {
    let mut l = LastNLogger::new(3);
    for i in 0..15 {
        l.build_output(&format!("line {}", i));
    }
    let lines = l.lines();
    assert_eq!(lines.len(), 10);
    assert_eq!(lines[0], "line 5");
    assert_eq!(lines[9], "line 14");
}

#[test]
fn rabbitmq_logger_publishes_lines() {
    let mut l = RabbitMQLogger::new();
    l.build_output("hello");
    let sent = l.take_published();
    assert_eq!(sent.len(), 1);
    assert_eq!(sent[0].exchange.as_deref(), Some("logs"));
    assert_eq!(sent[0].routing_key.as_deref(), Some("build.log"));
    assert_eq!(sent[0].content, b"hello".to_vec());
    assert!(l.take_published().is_empty());
    assert!(l.setup().passive);
}

#[test]
fn partition_keeps_order() {
    let (ok, err) = partition_result(vec![Ok(1), Err("a"), Ok(2), Err("b")]);
    assert_eq!(ok, vec![1, 2]);
    assert_eq!(err, vec!["a", "b"]);
}

#[test]
fn maintainers_by_package() {
    let m = ImpactedMaintainers::from_entries(vec![
        (
            Maintainer::from("Alice"),
            vec![Package::from("a"), Package::from("b")],
        ),
        (Maintainer::from("bob"), vec![Package::from("b")]),
    ]);
    assert_eq!(m.maintainers(), vec!["alice".to_owned(), "bob".to_owned()]);
    let by = m.maintainers_by_package();
    assert_eq!(by.0.len(), 2);
    assert_eq!(by.0[0].0, Package::from("a"));
    assert_eq!(by.0[0].1, vec![Maintainer::from("alice")]);
    assert_eq!(by.0[1].0, Package::from("b"));
    assert_eq!(
        by.0[1].1,
        vec![Maintainer::from("alice"), Maintainer::from("bob")]
    );
    assert_eq!(m.render(), "alice: a, b\nbob: b");
}

#[test]
fn checkout_paths() {
    let cloner = cached_cloner("/var/lib/ofborg/checkout");
    let project = cloner.project("abc", "https://github.com/nixos/nixpkgs.git".to_owned());
    assert_eq!(
        project.root,
        "/var/lib/ofborg/checkout/repo/900150983cd24fb0d6963f7d28e17f72"
    );
    assert_eq!(
        project.clone_to(),
        "/var/lib/ofborg/checkout/repo/900150983cd24fb0d6963f7d28e17f72/clone"
    );
    let co = project.clone_for("mr-est".to_owned(), "123".to_owned());
    assert_eq!(
        co.clone_to(),
        "/var/lib/ofborg/checkout/repo/900150983cd24fb0d6963f7d28e17f72/mr-est/123"
    );
    assert_eq!(
        co.lock_path(),
        "/var/lib/ofborg/checkout/repo/900150983cd24fb0d6963f7d28e17f72/mr-est/123.lock"
    );
    assert_eq!(co.extra_clone_args()[2], project.clone_to());
    assert_eq!(project.extra_clone_args(), vec!["--bare".to_owned()]);
    assert_eq!(CachedProjectCo::origin_ref("master"), "origin/master");
    assert_eq!(
        CachedProjectCo::fetch_pr_args(123),
        vec!["fetch".to_owned(), "origin".to_owned(), "+refs/pull/123/head:pr".to_owned()]
    );
    let empty = cached_cloner("").project("", String::new());
    assert_eq!(empty.root, "repo/d41d8cd98f00b204e9800998ecf8427e");
}

#[test]
fn path_pushing() {
    let mut p = "a/".to_owned();
    push_path(&mut p, "b");
    assert_eq!(p, "a/b");
    push_path(&mut p, "/abs");
    assert_eq!(p, "/abs");
}

#[test]
fn listings() {
    assert_eq!(
        listing_result(true, "a\nb\r\n", ""),
        Ok(vec!["a".to_owned(), "b".to_owned()])
    );
    assert_eq!(listing_result(false, "", "FATAL"), Err("fatal".to_owned()));
}

#[test]
fn clone_and_checkout_steps() {
    assert_eq!(clone_repo_args(true, &vec![], "from", "to"), None);
    assert_eq!(
        clone_repo_args(false, &vec!["--bare".to_owned()], "from", "to"),
        Some(vec![
            "clone".to_owned(),
            "--bare".to_owned(),
            "from".to_owned(),
            "to".to_owned()
        ])
    );
    assert_eq!(
        after_checkout_attempt(CheckoutAttempt::First, false),
        CheckoutStep::CleanAndRetry
    );
    assert_eq!(
        after_checkout_attempt(CheckoutAttempt::Second, false),
        CheckoutStep::Failed
    );
    assert_eq!(
        after_checkout_attempt(CheckoutAttempt::Second, true),
        CheckoutStep::Done
    );
}

#[test]
fn builder_broker_setup() {
    let s = builder_setup("x86_64-linux", None, "me-x86_64-linux");
    assert_eq!(s.declarations.len(), 3);
    match &s.declarations[1] {
        Declaration::Queue(q) => {
            assert_eq!(q.queue, "build-inputs-x86_64-linux");
            assert!(q.durable);
        }
        other => panic!("unexpected {:?}", other),
    }
    match &s.declarations[0] {
        Declaration::Exchange(e) => assert_eq!(e.exchange_type, ExchangeType::Fanout),
        other => panic!("unexpected {:?}", other),
    }
    assert_eq!(s.consume.consumer_tag, "me-x86_64-linux-builder");
    let all = builder_setup("x86_64-linux", Some(true), "me");
    assert_eq!(all.consume.queue, "");
    let o = session_options(true, "h", &None, "u", "p");
    assert_eq!(o.port, 5671);
    assert_eq!(o.vhost, "/");
    assert_eq!(ExchangeType::Custom("x".to_owned()).into(), "x");
    assert_eq!(ExchangeType::Topic.into(), "topic");
}

#[test]
fn log_server_decisions() {
    assert_eq!(requested_log_dir(true, "/logs/abc").ok().as_deref(), Some("abc"));
    assert_eq!(requested_log_dir(true, "/other").unwrap_err().status, 404);
    assert_eq!(requested_log_dir(false, "/logs/abc").unwrap_err().status, 405);
    assert!(path_is_within("/var/log/ofborg/x", "/var/log/ofborg"));
    assert!(path_is_within("/var/log/ofborg", "/var/log/ofborg"));
    assert!(!path_is_within("/var/log/ofborg2", "/var/log/ofborg"));
    assert_eq!(classify_log_file("a.metadata.json"), LogFileKind::Metadata);
    assert_eq!(classify_log_file("a.result.json"), LogFileKind::Result);
    assert_eq!(classify_log_file("a.log"), LogFileKind::Log);
    assert_eq!(log_url("https://l", "d", "f"), "https://l/d/f");
    let mut a = Attempts::new();
    a.record("x", AttemptFact::Metadata("{}".to_owned()));
    a.record("y", AttemptFact::LogUrl("u".to_owned()));
    a.record("x", AttemptFact::Result("[]".to_owned()));
    let entries = a.into_entries();
    assert_eq!(entries.len(), 2);
    assert_eq!(entries[0].1.metadata.as_deref(), Some("{}"));
    assert_eq!(entries[0].1.result.as_deref(), Some("[]"));
    assert_eq!(entries[1].1.log_url.as_deref(), Some("u"));
}

#[test]
fn pull_request_event_for_sending() {
    assert_eq!(
        split_repo_name("NixOS/nixpkgs"),
        Some(("NixOS".to_owned(), "nixpkgs".to_owned()))
    );
    assert_eq!(split_repo_name("nixpkgs"), None);
    let e = opened_pull_request_event(
        "NixOS",
        "nixpkgs",
        7,
        PullRequestRef {
            git_ref: "master".to_owned(),
            sha: "a".to_owned(),
        },
        PullRequestRef {
            git_ref: "feature".to_owned(),
            sha: "b".to_owned(),
        },
    );
    assert_eq!(e.repository.full_name, "NixOS/nixpkgs");
    assert_eq!(e.repository.clone_url, "https://github.com/NixOS/nixpkgs.git");
    assert!(e.changes.is_none());
}

#[test]
fn eval_checker_command_line() {
    let nix = Nix::new("x86_64-linux".to_owned(), "daemon".to_owned(), 1800, None);
    let c = EvalChecker::new(
        "package-list",
        Operation::QueryPackagesJson,
        vec!["--file".to_owned(), ".".to_owned()],
        nix,
    );
    assert_eq!(c.name(), "grahamcofborg-eval-package-list");
    assert_eq!(c.cli_cmd(), "nix-env -qa --json --file .");
}

#[test]
fn trim_agrees_with_std_on_every_kind_of_blank() {
    let blanks = [
        '\t', '\n', '\u{b}', '\u{c}', '\r', ' ', '\u{85}', '\u{a0}', '\u{1680}', '\u{2000}',
        '\u{2005}', '\u{200a}', '\u{2028}', '\u{2029}', '\u{202f}', '\u{205f}', '\u{3000}',
    ];
    let others = ['\u{200b}', '\u{180e}', '\u{feff}', 'x', '\u{8}', '\u{e}'];
    for b in blanks.iter().chain(others.iter()) {
        for s in [
            format!("{b}"),
            format!("{b}a{b}"),
            format!("{b}{b}a b{b}"),
            format!("a{b}"),
            format!("{b}a"),
        ] {
            assert_eq!(ofborg::text::trim(&s), s.trim(), "{:?}", s);
        }
    }
    assert_eq!(ofborg::text::trim(""), "");
    assert_eq!(ofborg::text::trim("\u{3000}\u{a0} tok \t\u{2028}"), "tok");
}

#[test]
fn logger_given_fewer_lines_than_it_keeps_returns_them_all() {
    let mut l = LastNLogger::new(3);
    l.build_output("a");
    l.build_output("b");
    assert_eq!(l.lines(), vec!["a".to_owned(), "b".to_owned()]);
    let mut ten = LastNLogger::new(1);
    for i in 0..10 {
        ten.build_output(&format!("{i}"));
    }
    let lines = ten.lines();
    assert_eq!(lines.len(), 10);
    assert_eq!(lines[0], "0");
}

#[test]
fn split_repo_name_rebuilds_the_full_name() {
    for full in ["NixOS/nixpkgs", "a/b/c", "/x", "x/"] {
        let (owner, name) = split_repo_name(full).unwrap();
        assert!(!owner.contains('/'));
        assert_eq!(format!("{owner}/{name}"), full);
    }
    assert_eq!(split_repo_name("a/b/c"), Some(("a".to_owned(), "b/c".to_owned())));
}

#[test]
fn a_maintainer_listed_twice_is_kept_once() {
    let m = ImpactedMaintainers::from_entries(vec![
        (Maintainer::from("alice"), vec![Package::from("a")]),
        (Maintainer::from("bob"), vec![Package::from("b")]),
        (Maintainer::from("Alice"), vec![Package::from("c")]),
    ]);
    assert_eq!(m.maintainers(), vec!["alice".to_owned(), "bob".to_owned()]);
    assert_eq!(m.render(), "alice: c\nbob: b");
}
