use ofborg::asynccmd::{log_line, wait_result, Finished, WaitError, WaitTarget, Waiters};
use ofborg::testworker::{TestWorker, TestWorkerActions};
use ofborg::worker::{
    delivery_command, ensure_publisher_confirmation, Action, BrokerCommand, Confirmation,
    PublishError, QueueMsg,
};

#[test]
fn publisher_confirmations_must_ack_without_returning_the_message() {
    assert!(ensure_publisher_confirmation(Confirmation::Ack(None)).is_ok());
    assert!(ensure_publisher_confirmation(Confirmation::Nack(None)).is_err());
    assert!(ensure_publisher_confirmation(Confirmation::NotRequested).is_err());
}

#[test]
fn a_returned_message_is_an_error() {
    let err = ensure_publisher_confirmation(Confirmation::Ack(Some("ret".to_owned())))
        .unwrap_err();
    assert_eq!(err, PublishError::Unroutable(Some("ret".to_owned())));
    assert_eq!(err.message(), "message was returned as unroutable: ret");
    assert_eq!(
        PublishError::NotRequested.message(),
        "publisher confirmation was not requested"
    );
    assert_eq!(
        PublishError::Rejected(None).message(),
        "message was rejected by the broker: None"
    );
    assert_eq!(
        PublishError::Rejected(Some("ret".to_owned())).message(),
        "message was rejected by the broker: Some(ret)"
    );
}

#[test]
fn actions_become_broker_commands() {
    assert_eq!(delivery_command(5, Action::Ack), BrokerCommand::Ack { tag: 5 });
    assert_eq!(
        delivery_command(5, Action::NackRequeue),
        BrokerCommand::Nack {
            tag: 5,
            requeue: true
        }
    );
    assert_eq!(
        delivery_command(5, Action::NackDump),
        BrokerCommand::Nack {
            tag: 5,
            requeue: false
        }
    );
    let msg = QueueMsg {
        exchange: None,
        routing_key: Some("key".to_owned()),
        mandatory: true,
        immediate: false,
        content_type: Some("application/json".to_owned()),
        content: b"{}".to_vec(),
    };
    assert_eq!(
        delivery_command(5, Action::Publish(msg)),
        BrokerCommand::Publish {
            exchange: String::new(),
            routing_key: "key".to_owned(),
            mandatory: true,
            immediate: false,
            content_type: Some("application/json".to_owned()),
            content: b"{}".to_vec(),
        }
    );
}

#[test]
fn test_worker_job() {
    let worker = TestWorker::new(vec!["x86_64-linux".to_owned()], "me".to_owned());
    let actions = worker.consumer("job");
    assert_eq!(actions.len(), 103);
    match &actions[0] {
        Action::Publish(m) => {
            assert_eq!(m.exchange.as_deref(), Some("stats"));
            assert_eq!(m.routing_key, None);
            assert_eq!(m.content, b"started-work".to_vec());
        }
        other => panic!("unexpected {:?}", other),
    }
    for a in &actions[1..100] {
        match a {
            Action::Publish(m) => {
                assert_eq!(m.exchange, None);
                assert_eq!(m.routing_key.as_deref(), Some("test-notify-worker"));
                assert_eq!(m.content, b"hi".to_vec());
            }
            other => panic!("unexpected {:?}", other),
        }
    }
    match &actions[101] {
        Action::Publish(m) => assert_eq!(m.content, b"finished-work-failed".to_vec()),
        other => panic!("unexpected {:?}", other),
    }
    assert_eq!(actions[102], Action::Ack);
}

#[test]
fn test_worker_actions_in_order() {
    let mut a = TestWorkerActions::new();
    a.ack();
    a.say_hi();
    let v = a.into_actions();
    assert_eq!(v.len(), 2);
    assert_eq!(v[0], Action::Ack);
}

#[test]
fn waiters_end_after_all_three() {
    let mut w: Waiters<i32> = Waiters::new();
    assert!(w.notice(WaitTarget::Stdout, Finished::Thread));
    assert!(!w.all_done());
    assert!(!w.notice(WaitTarget::Stdout, Finished::Thread));
    assert!(w.notice(WaitTarget::Child, Finished::Process(3)));
    assert!(!w.notice(WaitTarget::Child, Finished::Process(4)));
    assert!(w.notice(WaitTarget::Stderr, Finished::Thread));
    assert!(w.all_done());
    assert_eq!(w.into_outcome(), Some(3));
}

#[test]
fn log_lines_and_wait_results() {
    assert_eq!(log_line::<()>(Ok("hi".to_owned())), "hi");
    assert_eq!(
        log_line(Err(())),
        "Non-UTF8 data omitted from the log."
    );
    assert!(matches!(
        wait_result::<i32, ()>(None),
        Err(WaitError::JoinFailed)
    ));
    assert!(matches!(
        wait_result::<i32, ()>(Some(None)),
        Err(WaitError::NoExitStatus)
    ));
    assert_eq!(wait_result::<i32, ()>(Some(Some(Ok(0)))).ok(), Some(0));
    assert!(matches!(
        wait_result::<i32, &str>(Some(Some(Err("x")))),
        Err(WaitError::Wait("x"))
    ));
}
