use ofborg::events::{
    convert_build_event, hydra_build_status_to_status, replay_lines, step_status_label,
    BuildEventKind, HydraFinishedStatus, ReportedStatus, RunnerEvent, StepStatus,
};
use ofborg::grpcopts::{
    authorization_token, bearer_value, connection_plan, tls_plan, ConnectionPlan, GrpcOpts,
};
use ofborg::hydra::{epoch_seconds, lookup_build_id, tracking_records, unix_now};
use ofborg::message::{BuildStatus, HydraBuildState, HydraEvalDrv, HydraEvalJob, Pr, Repo};

fn ids(pairs: &[(&str, i32)]) -> Vec<(String, i32)> {
    pairs.iter().map(|(k, v)| (k.to_string(), *v)).collect()
}

#[test]
fn build_ids_by_full_path_or_basename() {
    let by_path = ids(&[("/nix/store/aaa-hello.drv", 3)]);
    assert_eq!(lookup_build_id(&by_path, "/nix/store/aaa-hello.drv"), Some(3));
    let by_name = ids(&[("aaa-hello.drv", 4)]);
    assert_eq!(lookup_build_id(&by_name, "/nix/store/aaa-hello.drv"), Some(4));
    assert_eq!(lookup_build_id(&by_name, "aaa-hello.drv"), Some(4));
    assert_eq!(lookup_build_id(&by_name, "/nix/store/bbb.drv"), None);
}

fn job() -> HydraEvalJob {
    HydraEvalJob {
        repo: Repo {
            owner: "NixOS".to_owned(),
            name: "nixpkgs".to_owned(),
            full_name: "NixOS/nixpkgs".to_owned(),
            clone_url: "https://github.com/nixos/nixpkgs.git".to_owned(),
        },
        pr: Pr {
            target_branch: Some("master".to_owned()),
            number: 42,
            head_sha: "abc".to_owned(),
        },
        system: "x86_64-linux".to_owned(),
        jobset_id: 9,
        request_id: "req".to_owned(),
    }
}

#[test]
fn tracking_records_skip_derivations_without_builds() {
    let drvs = vec![
        HydraEvalDrv {
            attr: "hello".to_owned(),
            drv_path: "/nix/store/aaa-hello.drv".to_owned(),
        },
        HydraEvalDrv {
            attr: "missing".to_owned(),
            drv_path: "/nix/store/zzz-missing.drv".to_owned(),
        },
        HydraEvalDrv {
            attr: "world".to_owned(),
            drv_path: "/nix/store/bbb-world.drv".to_owned(),
        },
    ];
    let build_ids = ids(&[("bbb-world.drv", 2), ("/nix/store/aaa-hello.drv", 1)]);
    let records = tracking_records(&job(), &drvs, &build_ids, 77, "https://hydra");
    assert_eq!(records.len(), 2);
    assert_eq!(records[0].0.build_id, 1);
    assert_eq!(records[0].0.attr, "hello");
    assert_eq!(records[0].0.queued_at, 77);
    assert_eq!(records[0].0.jobset_id, 9);
    assert_eq!(records[0].1.state, HydraBuildState::Queued);
    assert_eq!(records[0].1.machine, None);
    assert_eq!(records[1].0.build_id, 2);
    assert_eq!(records[1].1.details_url(), "https://hydra/build/2");
}

#[test]
fn clock_readings() {
    assert_eq!(epoch_seconds(None), 0);
    assert_eq!(epoch_seconds(Some(5)), 5);
    assert_eq!(epoch_seconds(Some(u64::MAX)), i64::MAX);
    assert!(unix_now() > 1_600_000_000);
}

fn opts(endpoint: &str) -> GrpcOpts {
    GrpcOpts {
        gateway_endpoint: endpoint.to_owned(),
        authorization_file: None,
        mtls: false,
        server_root_ca_cert_path: None,
        client_cert_path: None,
        client_key_path: None,
        domain_name: None,
    }
}

#[test]
fn connection_plans() {
    assert!(matches!(
        connection_plan(&opts("unix:///run/q.sock")),
        Ok(ConnectionPlan::UnixSocket { path }) if path == "/run/q.sock"
    ));
    assert!(matches!(
        connection_plan(&opts("https://q.example:50051/")),
        Ok(ConnectionPlan::Tls { endpoint, domain })
            if endpoint == "https://q.example:50051/" && domain == "q.example"
    ));
    assert!(matches!(
        connection_plan(&opts("http://[::1]:50051")),
        Ok(ConnectionPlan::Plain { .. })
    ));
    let mut half = opts("http://x");
    half.client_cert_path = Some("/c".to_owned());
    assert!(!half.mtls_configured_correctly());
    assert_eq!(
        connection_plan(&half).err().as_deref(),
        Some("Configuration issue")
    );
    half.mtls = true;
    assert!(half.mtls_enabled());
    assert_eq!(
        half.get_mtls().err().as_deref(),
        Some("server_root_ca_cert_path not provided")
    );
    half.server_root_ca_cert_path = Some("/ca".to_owned());
    half.client_key_path = Some("/k".to_owned());
    half.domain_name = Some("q".to_owned());
    assert!(matches!(
        connection_plan(&half),
        Ok(ConnectionPlan::Mtls { settings, .. }) if settings.domain_name == "q"
    ));
}

#[test]
fn authorization_tokens() {
    assert_eq!(authorization_token(None), None);
    assert_eq!(
        authorization_token(Some("token = \"abc\"\n")).as_deref(),
        Some("abc")
    );
    assert_eq!(authorization_token(Some("  plain-token\n")).as_deref(), Some("plain-token"));
    assert_eq!(bearer_value("abc"), "Bearer abc");
}

#[test]
fn only_the_token_key_is_read_from_toml() {
    assert_eq!(
        authorization_token(Some("secret = \"abc\"\n")).as_deref(),
        Some("secret = \"abc\"")
    );
    assert_eq!(
        authorization_token(Some("secret = \"x\"\ntoken = \"y\"\n")).as_deref(),
        Some("y")
    );
}

#[test]
fn runner_events() {
    let e = convert_build_event(
        7,
        Some(RunnerEvent::Running {
            machine: String::new(),
            step_status: Some(StepStatus::SeningInputs),
        }),
    )
    .unwrap();
    assert_eq!(e.machine, None);
    assert_eq!(
        e.kind,
        BuildEventKind::Running {
            step: Some("Sending inputs".to_owned())
        }
    );
    let f = convert_build_event(
        7,
        Some(RunnerEvent::Finished {
            machine: "b1".to_owned(),
            status: ReportedStatus::Known(HydraFinishedStatus::DepFailed),
        }),
    )
    .unwrap();
    assert_eq!(f.machine.as_deref(), Some("b1"));
    assert!(f.is_terminal());
    assert_eq!(
        f.kind,
        BuildEventKind::Finished {
            status: BuildStatus::Failure
        }
    );
    assert_eq!(
        convert_build_event(7, None).err().as_deref(),
        Some("BuildEvent without an event variant")
    );
    assert_eq!(step_status_label(None), None);
    assert_eq!(
        hydra_build_status_to_status(ReportedStatus::Unknown {
            code: 99,
            error: "bad".to_owned()
        }),
        BuildStatus::UnexpectedError {
            err: "unknown hydra build status 99: bad".to_owned()
        }
    );
    assert_eq!(
        hydra_build_status_to_status(ReportedStatus::Known(HydraFinishedStatus::NotDeterministic)),
        BuildStatus::HashMismatch
    );
}

#[test]
fn replay_file_lines() {
    let contents = "# comment\n\n  {\"build_id\":7}  \n\t\n{\"build_id\":8}\r\n";
    assert_eq!(
        replay_lines(contents),
        vec!["{\"build_id\":7}".to_owned(), "{\"build_id\":8}".to_owned()]
    );
}

#[test]
fn an_https_endpoint_needs_a_domain_name() {
    assert_eq!(
        connection_plan(&opts("https://127.0.0.1:50051")).err().as_deref(),
        Some("No domain_name found for gateway_endpoint")
    );
    assert_eq!(
        connection_plan(&opts("https://")).err().as_deref(),
        Some("Failed to parse gateway_endpoint")
    );
    assert_eq!(
        tls_plan("https://a", None).err().as_deref(),
        Some("Failed to parse gateway_endpoint")
    );
    assert_eq!(
        tls_plan("https://a", Some(None)).err().as_deref(),
        Some("No domain_name found for gateway_endpoint")
    );
    assert!(matches!(
        tls_plan("https://a", Some(Some("a".to_owned()))),
        Ok(ConnectionPlan::Tls { endpoint, domain }) if endpoint == "https://a" && domain == "a"
    ));
}
