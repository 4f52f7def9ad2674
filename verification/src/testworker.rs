//! A worker that exercises the notification path: it reports progress,
//! greets a queue, and acknowledges.

use vstd::prelude::*;
use vstd::utf8::encode_utf8;

use crate::worker::{Action, QueueMsg};

verus! {

/// The test worker of a runner: the platforms it serves and its identity.
#[derive(Debug)]
pub struct TestWorker {
    pub system: Vec<String>,
    pub identity: String,
}

impl TestWorker {
    pub fn new(system: Vec<String>, identity: String) -> (w: TestWorker)
        ensures
            w.system == system,
            w.identity == identity,
    {
        TestWorker { system, identity }
    }
}

/// `a` publishes the bytes of `text` to `exchange` (or the default one)
/// under `routing_key` (or none), without flags or content type.
pub open spec fn publishes(
    a: Action,
    exchange: Option<Seq<char>>,
    routing_key: Option<Seq<char>>,
    text: Seq<char>,
) -> bool {
    a matches Action::Publish(m) && (match (m.exchange, exchange) {
        (Some(x), Some(y)) => x@ == y,
        (None, None) => true,
        _ => false,
    }) && (match (m.routing_key, routing_key) {
        (Some(x), Some(y)) => x@ == y,
        (None, None) => true,
        _ => false,
    }) && m.content@ == encode_utf8(text) && !m.immediate && !m.mandatory && m.content_type is None
}

/// The progress event `event`, sent to the `stats` exchange.
pub open spec fn is_tick(a: Action, event: Seq<char>) -> bool {
    publishes(a, Some("stats"@), None, event)
}

/// A greeting on the queue `test-notify-worker`.
pub open spec fn is_hi(a: Action) -> bool {
    publishes(a, None, Some("test-notify-worker"@), "hi"@)
}

/// The actions the test worker asks for, in order.
pub struct TestWorkerActions {
    actions: Vec<Action>,
}

impl TestWorkerActions {
    /// The actions asked for so far.
    pub closed spec fn asked(&self) -> Seq<Action> {
        self.actions@
    }

    /// Nothing asked yet.
    pub fn new() -> (a: TestWorkerActions)
        ensures
            a.asked() == Seq::<Action>::empty(),
    {
        TestWorkerActions { actions: Vec::new() }
    }

    /// Reports the progress event `event`.
    pub fn tick(&mut self, event: &str)
        ensures
            final(self).asked().len() == old(self).asked().len() + 1,
            final(self).asked().take(old(self).asked().len() as int) == old(self).asked(),
            is_tick(final(self).asked().last(), event@),
    {
        let content = vstd::slice::slice_to_vec(event.as_bytes());
        self.actions.push(
            Action::Publish(
                QueueMsg {
                    exchange: Some("stats".to_owned()),
                    routing_key: None,
                    mandatory: false,
                    immediate: false,
                    content_type: None,
                    content,
                },
            ),
        );
        assert(self.actions@.take(old(self).actions@.len() as int) =~= old(self).actions@);
    }

    /// Greets the queue `test-notify-worker`.
    pub fn say_hi(&mut self)
        ensures
            final(self).asked().len() == old(self).asked().len() + 1,
            final(self).asked().take(old(self).asked().len() as int) == old(self).asked(),
            is_hi(final(self).asked().last()),
    {
        let content = vstd::slice::slice_to_vec("hi".as_bytes());
        self.actions.push(
            Action::Publish(
                QueueMsg {
                    exchange: None,
                    routing_key: Some("test-notify-worker".to_owned()),
                    mandatory: false,
                    immediate: false,
                    content_type: None,
                    content,
                },
            ),
        );
        assert(self.actions@.take(old(self).actions@.len() as int) =~= old(self).actions@);
    }

    /// Acknowledges the delivery.
    pub fn ack(&mut self)
        ensures
            final(self).asked() == old(self).asked().push(Action::Ack),
    {
        self.actions.push(Action::Ack);
    }

    /// The actions asked for, in order.
    pub fn into_actions(self) -> (r: Vec<Action>)
        ensures
            r@ == self.asked(),
    {
        self.actions
    }
}

impl TestWorker {
    /// Handles a job: reports that work started, greets the queue 99 times,
    /// reports success and failure, and acknowledges.
    pub fn consumer(&self, job: &str) -> (r: Vec<Action>)
        ensures
            r.len() == 103,
            is_tick(r@[0], "started-work"@),
            forall|i: int| 1 <= i < 100 ==> is_hi(#[trigger] r@[i]),
            is_tick(r@[100], "finished-work-success"@),
            is_tick(r@[101], "finished-work-failed"@),
            r@[102] == Action::Ack,
    {
        let mut actions = TestWorkerActions::new();
        actions.tick("started-work");
        let mut i: u32 = 1;
        while i < 100
            invariant
                1 <= i <= 100,
                actions.asked().len() == i,
                is_tick(actions.asked()[0], "started-work"@),
                forall|k: int| 1 <= k < i ==> is_hi(#[trigger] actions.asked()[k]),
            decreases 100 - i,
        {
            let ghost before = actions.asked();
            actions.say_hi();
            assert forall|k: int| 0 <= k < before.len() implies actions.asked()[k] == before[k] by {
                assert(actions.asked().take(before.len() as int)[k] == actions.asked()[k]);
            }
            assert forall|k: int| 1 <= k < i + 1 implies is_hi(#[trigger] actions.asked()[k]) by {
                if k < i {
                    assert(actions.asked()[k] == before[k]);
                    assert(is_hi(before[k]));
                } else {
                    assert(actions.asked()[k] == actions.asked().last());
                }
            }
            assert(actions.asked()[0] == before[0]);
            i = i + 1;
        }
        let ghost greeted = actions.asked();
        actions.tick("finished-work-success");
        let ghost ticked = actions.asked();
        actions.tick("finished-work-failed");
        actions.ack();
        let r = actions.into_actions();
        assert forall|k: int| 0 <= k < greeted.len() implies r@[k] == greeted[k] by {
            assert(ticked.take(greeted.len() as int)[k] == ticked[k]);
            assert(r@.take(ticked.len() as int)[k] == r@[k]);
        }
        assert forall|k: int| 1 <= k < 100 implies is_hi(#[trigger] r@[k]) by {
            assert(r@[k] == greeted[k]);
            assert(is_hi(greeted[k]));
        }
        assert(r@[0] == greeted[0]);
        assert(r@[100] == ticked[100]) by {
            assert(r@.take(ticked.len() as int)[100] == r@[100]);
        }
        r
    }
}

} // verus!
