use ofborg::events::{BuildEvent, BuildEventKind};
use ofborg::message::{BuildStatus, HydraBuildState, HydraBuildTracking, HydraBuildUpdate, Pr, Repo};
use ofborg::tracker::{build_update, Tracker};

fn tracking() -> HydraBuildTracking {
    HydraBuildTracking {
        repo: Repo {
            clone_url: "https://github.com/nixos/nixpkgs.git".to_owned(),
            full_name: "NixOS/nixpkgs".to_owned(),
            owner: "NixOS".to_owned(),
            name: "nixpkgs".to_owned(),
        },
        pr: Pr {
            head_sha: "abc123".to_owned(),
            number: 42,
            target_branch: Some("master".to_owned()),
        },
        attr: "hello".to_owned(),
        system: "x86_64-linux".to_owned(),
        drv_path: "/nix/store/aaa-hello.drv".to_owned(),
        build_id: 7,
        jobset_id: 1,
        request_id: "r".to_owned(),
        queued_at: 0,
    }
}

#[test]
fn carries_the_machine_through_to_the_update() {
    let update = build_update(
        &tracking(),
        &BuildEvent {
            build_id: 7,
            machine: Some("builder-01".to_owned()),
            kind: BuildEventKind::Running {
                step: Some("Building".to_owned()),
            },
        },
        "https://hydra.example.com",
    );

    assert_eq!(update.machine.as_deref(), Some("builder-01"));
    assert_eq!(
        update.state,
        HydraBuildState::Running {
            step: Some("Building".to_owned())
        }
    );
    assert_eq!(update.attr, "hello");
    assert_eq!(update.system, "x86_64-linux");
    assert_eq!(update.details_url(), "https://hydra.example.com/build/7");
}

#[test]
fn maps_a_failed_build_to_a_finished_update() {
    let update = build_update(
        &tracking(),
        &BuildEvent {
            build_id: 7,
            machine: None,
            kind: BuildEventKind::Finished {
                status: BuildStatus::Failure,
            },
        },
        "https://hydra.example.com",
    );

    assert_eq!(
        update.state,
        HydraBuildState::Finished {
            status: BuildStatus::Failure
        }
    );
}

fn running(build_id: i32, machine: &str) -> BuildEvent {
    BuildEvent {
        build_id,
        machine: Some(machine.to_owned()),
        kind: BuildEventKind::Running { step: None },
    }
}

/// What the service does with an event: publish what `on_event` gives, then
/// record it; the update published and the delivery to acknowledge.
fn handle(t: &mut Tracker, event: &BuildEvent) -> (Option<HydraBuildUpdate>, Option<u64>) {
    match t.on_event(event) {
        Some(update) => {
            let ack = t.after_publish(event);
            (Some(update), ack)
        }
        None => (None, None),
    }
}

#[test]
fn a_lag_report_is_ignored() {
    let mut t = Tracker::new("https://hydra.example.com".to_owned(), 60);
    assert_eq!(t.on_tracking(11, tracking()), None);
    let lag = BuildEvent {
        build_id: 7,
        machine: None,
        kind: BuildEventKind::Lagged { dropped: 3 },
    };
    assert!(t.on_event(&lag).is_none());
    assert_eq!(t.after_publish(&lag), None);
    assert_eq!(t.settle(7), Some(11));
}

#[test]
fn an_untracked_build_is_ignored() {
    let mut t = Tracker::new("https://hydra.example.com".to_owned(), 60);
    let (publish, ack) = handle(&mut t, &running(8, "builder-01"));
    assert!(publish.is_none());
    assert!(ack.is_none());
    assert_eq!(t.after_publish(&running(8, "builder-01")), None);
}

#[test]
fn a_repeated_state_is_published_once() {
    let mut t = Tracker::new("https://hydra.example.com".to_owned(), 60);
    t.on_tracking(11, tracking());
    let (first, _) = handle(&mut t, &running(7, "builder-01"));
    assert!(first.is_some());
    let (second, _) = handle(&mut t, &running(7, "builder-01"));
    assert!(second.is_none());
    let (moved, _) = handle(&mut t, &running(7, "builder-02"));
    assert_eq!(moved.map(|u| u.machine), Some(Some("builder-02".to_owned())));
}

#[test]
fn nothing_is_recorded_before_the_update_is_published() {
    let mut t = Tracker::new("https://hydra.example.com".to_owned(), 60);
    t.on_tracking(11, tracking());
    // the publish failed: on_event alone changes nothing, so the same
    // event is offered again
    assert!(t.on_event(&running(7, "builder-01")).is_some());
    assert!(t.on_event(&running(7, "builder-01")).is_some());
    let done = BuildEvent {
        build_id: 7,
        machine: None,
        kind: BuildEventKind::Finished {
            status: BuildStatus::Success,
        },
    };
    assert!(t.on_event(&done).is_some());
    assert!(t.on_event(&done).is_some());
    assert_eq!(t.after_publish(&done), Some(11));
    assert!(t.on_event(&done).is_none());
}

#[test]
fn a_finished_build_is_acked_and_forgotten() {
    let mut t = Tracker::new("https://hydra.example.com".to_owned(), 60);
    t.on_tracking(11, tracking());
    let (publish, ack) = handle(
        &mut t,
        &BuildEvent {
            build_id: 7,
            machine: Some("builder-01".to_owned()),
            kind: BuildEventKind::Finished {
                status: BuildStatus::Success,
            },
        },
    );
    assert_eq!(ack, Some(11));
    assert_eq!(
        publish.map(|u| u.state),
        Some(HydraBuildState::Finished {
            status: BuildStatus::Success
        })
    );
    let (after, _) = handle(&mut t, &running(7, "builder-01"));
    assert!(after.is_none());
}

#[test]
fn a_duplicate_record_acks_the_one_it_replaces() {
    let mut t = Tracker::new("https://hydra.example.com".to_owned(), 60);
    assert_eq!(t.on_tracking(11, tracking()), None);
    assert_eq!(t.on_tracking(12, tracking()), Some(11));
    let (_, ack) = handle(
        &mut t,
        &BuildEvent {
            build_id: 7,
            machine: None,
            kind: BuildEventKind::Finished {
                status: BuildStatus::Failure,
            },
        },
    );
    assert_eq!(ack, Some(12));
}

#[test]
fn the_sweep_gives_up_on_stale_builds_only() {
    let mut t = Tracker::new("https://hydra.example.com".to_owned(), 60);
    let mut old = tracking();
    old.queued_at = 100;
    t.on_tracking(11, old);
    let mut fresh = tracking();
    fresh.build_id = 8;
    fresh.queued_at = 150;
    t.on_tracking(12, fresh);
    let given_up = t.sweep(170);
    assert_eq!(given_up.len(), 1);
    assert_eq!(given_up[0].build_id, 7);
    assert_eq!(
        given_up[0].state,
        HydraBuildState::Finished {
            status: BuildStatus::TimedOut
        }
    );
    assert_eq!(given_up[0].machine, None);
    // until its update is published and the build settled, it stays
    assert_eq!(t.sweep(170).len(), 1);
    assert_eq!(t.settle(7), Some(11));
    assert!(t.sweep(170).is_empty());
    assert_eq!(t.settle(7), None);
    let later = t.sweep(210);
    assert_eq!(later.len(), 1);
    assert_eq!(later[0].build_id, 8);
    assert_eq!(t.settle(8), Some(12));
}

#[test]
fn a_clock_behind_the_queue_time_is_not_stale() {
    let mut t = Tracker::new("https://hydra.example.com".to_owned(), 0);
    let mut future = tracking();
    future.queued_at = 1000;
    t.on_tracking(11, future);
    // a build queued "in the future" has waited zero seconds, which meets a
    // zero limit
    assert_eq!(t.sweep(10).len(), 1);
}

#[test]
fn details_url_of_a_negative_build_id() {
    let mut update = build_update(&tracking(), &running(7, "m"), "https://h");
    update.build_id = -12;
    assert_eq!(update.details_url(), "https://h/build/-12");
}
