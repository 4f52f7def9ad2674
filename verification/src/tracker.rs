//! Joins Hydra build events back onto the pull requests that caused them.
//!
//! The tracker keeps one record per build in flight, keyed by build id. Each
//! record carries the delivery tag of the message it arrived in; that message
//! stays unacknowledged while the build is in flight, so the broker hands the
//! records of unfinished builds back after a restart. The functions here
//! decide what to publish and which deliveries to acknowledge; the caller
//! talks to the broker.

use std::collections::HashMap;
use vstd::prelude::*;
use vstd::std_specs::iter::IteratorSpec;

use crate::events::{is_terminal_kind, state_for, BuildEvent, BuildEventKind};
use crate::text::str_eq;
use crate::message::{
    BuildStatus, HydraBuildState, HydraBuildTracking, HydraBuildUpdate, HydraV1Tag,
};

verus! {

broadcast use vstd::std_specs::hash::group_hash_axioms;

/// Whether two optional strings hold the same text.
pub open spec fn same_text(a: Option<String>, b: Option<String>) -> bool {
    match (a, b) {
        (Some(x), Some(y)) => x@ == y@,
        (None, None) => true,
        _ => false,
    }
}

/// Whether two build statuses are equal, strings compared by content.
pub open spec fn same_status(a: BuildStatus, b: BuildStatus) -> bool {
    match (a, b) {
        (BuildStatus::UnexpectedError { err: x }, BuildStatus::UnexpectedError { err: y }) => x@
            == y@,
        (BuildStatus::UnexpectedError { .. }, _) => false,
        (_, BuildStatus::UnexpectedError { .. }) => false,
        _ => a == b,
    }
}

/// Whether two build states are equal, strings compared by content.
pub open spec fn same_state(a: HydraBuildState, b: HydraBuildState) -> bool {
    match (a, b) {
        (HydraBuildState::Queued, HydraBuildState::Queued) => true,
        (HydraBuildState::Running { step: x }, HydraBuildState::Running { step: y }) => same_text(
            x,
            y,
        ),
        (HydraBuildState::Finished { status: x }, HydraBuildState::Finished { status: y }) =>
            same_status(x, y),
        _ => false,
    }
}

fn text_eq(a: &Option<String>, b: &Option<String>) -> (r: bool)
    ensures
        r == same_text(*a, *b),
{
    match (a, b) {
        (Some(x), Some(y)) => str_eq(x.as_str(), y.as_str()),
        (None, None) => true,
        _ => false,
    }
}

fn status_eq(a: &BuildStatus, b: &BuildStatus) -> (r: bool)
    ensures
        r == same_status(*a, *b),
{
    match (a, b) {
        (BuildStatus::Skipped, BuildStatus::Skipped) => true,
        (BuildStatus::Success, BuildStatus::Success) => true,
        (BuildStatus::Failure, BuildStatus::Failure) => true,
        (BuildStatus::TimedOut, BuildStatus::TimedOut) => true,
        (BuildStatus::HashMismatch, BuildStatus::HashMismatch) => true,
        (BuildStatus::UnexpectedError { err: x }, BuildStatus::UnexpectedError { err: y }) => str_eq(
            x.as_str(),
            y.as_str(),
        ),
        _ => false,
    }
}

fn state_eq(a: &HydraBuildState, b: &HydraBuildState) -> (r: bool)
    ensures
        r == same_state(*a, *b),
{
    match (a, b) {
        (HydraBuildState::Queued, HydraBuildState::Queued) => true,
        (HydraBuildState::Running { step: x }, HydraBuildState::Running { step: y }) => text_eq(
            x,
            y,
        ),
        (HydraBuildState::Finished { status: x }, HydraBuildState::Finished { status: y }) =>
            status_eq(x, y),
        _ => false,
    }
}

/// `u` is the update that reports `event` for the build tracked by `t`, on
/// the Hydra instance at `base`.
pub open spec fn is_update_for(
    u: HydraBuildUpdate,
    t: HydraBuildTracking,
    event: BuildEvent,
    base: Seq<char>,
) -> bool {
    &&& u.tag == HydraV1Tag::HydraV1
    &&& u.repo == t.repo
    &&& u.pr == t.pr
    &&& u.attr == t.attr
    &&& u.system == t.system
    &&& u.build_id == t.build_id
    &&& u.machine == event.machine
    &&& u.state == state_for(event.kind)
    &&& u.hydra_base_url@ == base
}

/// The update that reports `event` for the build tracked by `tracking`.
pub fn build_update(
    tracking: &HydraBuildTracking,
    event: &BuildEvent,
    hydra_base_url: &str,
) -> (u: HydraBuildUpdate)
    ensures
        is_update_for(u, *tracking, *event, hydra_base_url@),
{
    let state = match &event.kind {
        BuildEventKind::Queued => HydraBuildState::Queued,
        BuildEventKind::Running { step } => HydraBuildState::Running { step: step.clone() },
        BuildEventKind::Finished { status } => HydraBuildState::Finished { status: status.clone() },
        BuildEventKind::Lagged { .. } => HydraBuildState::Running { step: None },
    };
    HydraBuildUpdate {
        tag: HydraV1Tag::HydraV1,
        repo: tracking.repo.clone(),
        pr: tracking.pr.clone(),
        attr: tracking.attr.clone(),
        system: tracking.system.clone(),
        build_id: tracking.build_id,
        machine: event.machine.clone(),
        state,
        hydra_base_url: hydra_base_url.to_owned(),
    }
}

/// A build in flight: the delivery its record arrived in, the record, and
/// the state and machine last published for it.
#[derive(Debug)]
pub struct PendingBuild {
    pub delivery_tag: u64,
    pub tracking: HydraBuildTracking,
    pub last_published: Option<(HydraBuildState, Option<String>)>,
}

/// Whether what was last published for `b` already shows what `event`
/// would show: the same state on the same machine.
pub open spec fn already_published(b: PendingBuild, event: BuildEvent) -> bool {
    b.last_published matches Some(r) && same_state(r.0, state_for(event.kind)) && same_text(
        r.1,
        event.machine,
    )
}

/// What was last published for `b` already shows `event` only when it is
/// the very state the event puts the build in, the running step and any
/// error text included, on the same machine; and an event that shows just
/// that is not published again. So an event whose state or machine differs
/// from what was last published is always published.
pub proof fn law_only_an_unchanged_state_is_skipped(b: PendingBuild, event: BuildEvent)
    ensures
        already_published(b, event) ==> b.last_published is Some,
        already_published(b, event) ==> ({
            let last = b.last_published->0;
            &&& match (last.0, state_for(event.kind)) {
                (HydraBuildState::Queued, HydraBuildState::Queued) => true,
                (HydraBuildState::Running { step: x }, HydraBuildState::Running { step: y }) => (x is None
                    <==> y is None) && (x is Some ==> x->0@ == y->0@),
                (HydraBuildState::Finished { status: x }, HydraBuildState::Finished { status: y }) => {
                    &&& (x is UnexpectedError <==> y is UnexpectedError)
                    &&& (x is UnexpectedError ==> x->err@ == y->err@)
                    &&& (!(x is UnexpectedError) ==> x == y)
                },
                _ => false,
            }
            &&& (last.1 is None <==> event.machine is None)
            &&& (event.machine is Some ==> last.1->0@ == event.machine->0@)
        }),
        b.last_published == Some((state_for(event.kind), event.machine)) ==> already_published(
            b,
            event,
        ),
{
    if b.last_published == Some((state_for(event.kind), event.machine)) {
        let st = state_for(event.kind);
        assert(same_state(st, st));
        assert(same_text(event.machine, event.machine));
    }
}

/// `last`, a state and machine that were published, shows exactly what
/// `event` shows: the same kind of state with the same running step or the
/// same status (error text included), on the same machine.
pub open spec fn shows_same(last: (HydraBuildState, Option<String>), event: BuildEvent) -> bool {
    &&& match (last.0, state_for(event.kind)) {
        (HydraBuildState::Queued, HydraBuildState::Queued) => true,
        (HydraBuildState::Running { step: x }, HydraBuildState::Running { step: y }) => (x is None
            <==> y is None) && (x is Some ==> x->0@ == y->0@),
        (HydraBuildState::Finished { status: x }, HydraBuildState::Finished { status: y }) => {
            &&& (x is UnexpectedError <==> y is UnexpectedError)
            &&& (x is UnexpectedError ==> x->err@ == y->err@)
            &&& (!(x is UnexpectedError) ==> x == y)
        },
        _ => false,
    }
    &&& (last.1 is None <==> event.machine is None)
    &&& (event.machine is Some ==> last.1->0@ == event.machine->0@)
}

/// Whether an event calls for an update: it is no lag report, its build is
/// tracked, and what was last published for the build does not already
/// show it.
pub open spec fn update_due(p: Map<i32, PendingBuild>, event: BuildEvent) -> bool {
    &&& !(event.kind is Lagged)
    &&& p.contains_key(event.build_id)
    &&& !already_published(p[event.build_id], event)
}

/// An event of a tracked build calls for an update exactly when nothing was
/// published for the build yet, or what was last published differs from
/// the event's state (its running step or status included) or machine.
pub proof fn law_a_changed_state_is_always_published(p: Map<i32, PendingBuild>, event: BuildEvent)
    ensures
        update_due(p, event) <==> {
            &&& !(event.kind is Lagged)
            &&& p.contains_key(event.build_id)
            &&& !(p[event.build_id].last_published matches Some(r) && shows_same(r, event))
        },
{
}

/// The event that gives up on build `build_id`: finished, timed out, on no
/// machine.
pub open spec fn timed_out_event(build_id: i32) -> BuildEvent {
    BuildEvent {
        build_id,
        machine: None,
        kind: BuildEventKind::Finished { status: BuildStatus::TimedOut },
    }
}

/// How long a build queued at `queued_at` has waited at `now`, in seconds:
/// the saturating difference, or zero when the clock says it was queued in
/// the future.
pub open spec fn waited_seconds(now: i64, queued_at: i64) -> int {
    let d = now - queued_at;
    if d < 0 {
        0
    } else if d > i64::MAX {
        i64::MAX as int
    } else {
        d
    }
}

/// Whether build `b` has waited at least `stale_after` seconds at `now`.
pub open spec fn is_stale(b: PendingBuild, now: i64, stale_after: u64) -> bool {
    waited_seconds(now, b.tracking.queued_at) >= stale_after
}

fn is_stale_at(queued_at: i64, now: i64, stale_after: u64) -> (r: bool)
    ensures
        r == (waited_seconds(now, queued_at) >= stale_after),
{
    let d: i128 = now as i128 - queued_at as i128;
    let waited: i128 = if d < 0 {
        0
    } else if d > i64::MAX as i128 {
        i64::MAX as i128
    } else {
        d
    };
    waited >= stale_after as i128
}

/// The builds in flight after the update for `event` was published, from
/// `p`: a finished build is no longer tracked; any other tracked build
/// records the state and machine the event showed; lag reports and events
/// of builds not tracked change nothing.
pub open spec fn tracked_after_publish(p: Map<i32, PendingBuild>, event: BuildEvent) -> Map<
    i32,
    PendingBuild,
> {
    let id = event.build_id;
    if event.kind is Lagged || !p.contains_key(id) {
        p
    } else if event.kind is Finished {
        p.remove(id)
    } else {
        p.insert(
            id,
            PendingBuild {
                delivery_tag: p[id].delivery_tag,
                tracking: p[id].tracking,
                last_published: Some((state_for(event.kind), event.machine)),
            },
        )
    }
}

/// The delivery acknowledged after the update for `event` was published:
/// that of a tracked build the event reports finished, and none otherwise.
pub open spec fn acked_after_publish(p: Map<i32, PendingBuild>, event: BuildEvent) -> Option<u64> {
    if event.kind is Finished && p.contains_key(event.build_id) {
        Some(p[event.build_id].delivery_tag)
    } else {
        None
    }
}

/// Publishing the update for an event of a tracked build ends its tracking
/// and acknowledges its record exactly when the event reports the build
/// finished. A queued or running build stays tracked, keeps its record and
/// delivery, and records what was shown; no other build changes.
pub proof fn law_only_a_finished_build_is_acknowledged(p: Map<i32, PendingBuild>, event: BuildEvent)
    requires
        p.contains_key(event.build_id),
        !(event.kind is Lagged),
    ensures
        ({
            let q = tracked_after_publish(p, event);
            let id = event.build_id;
            &&& q.contains_key(id) <==> !(event.kind is Finished)
            &&& acked_after_publish(p, event) is Some <==> event.kind is Finished
            &&& event.kind is Finished ==> acked_after_publish(p, event) == Some(p[id].delivery_tag)
            &&& (event.kind is Queued || event.kind is Running) ==> {
                &&& q[id].delivery_tag == p[id].delivery_tag
                &&& q[id].tracking == p[id].tracking
                &&& q[id].last_published == Some((state_for(event.kind), event.machine))
            }
            &&& forall|other: i32| other != id ==> (#[trigger] q.contains_key(other) <==> p.contains_key(other))
                && (p.contains_key(other) ==> q[other] == p[other])
        }),
{
}

/// The builds in flight and what the tracker needs to report on them.
#[derive(Debug)]
pub struct Tracker {
    hydra_base_url: String,
    stale_after_seconds: u64,
    pending: HashMap<i32, PendingBuild>,
}

impl Tracker {
    /// The builds in flight, by build id.
    pub closed spec fn pending_builds(&self) -> Map<i32, PendingBuild> {
        self.pending@
    }

    /// The Hydra instance the builds run on.
    pub closed spec fn base_url(&self) -> Seq<char> {
        self.hydra_base_url@
    }

    /// After how many seconds a build without a result is given up.
    pub closed spec fn stale_after(&self) -> u64 {
        self.stale_after_seconds
    }

    /// Each record sits under its own build id, and no finished state was
    /// ever recorded as published for a build still in flight.
    pub open spec fn wf(&self) -> bool {
        forall|id: i32|
            #[trigger] self.pending_builds().contains_key(id) ==> {
                &&& self.pending_builds()[id].tracking.build_id == id
                &&& !(self.pending_builds()[id].last_published matches Some(r) && r.0 is Finished)
            }
    }

    /// A tracker with no build in flight.
    pub fn new(hydra_base_url: String, stale_after_seconds: u64) -> (t: Tracker)
        ensures
            t.wf(),
            t.pending_builds() == Map::<i32, PendingBuild>::empty(),
            t.base_url() == hydra_base_url@,
            t.stale_after() == stale_after_seconds,
    {
        Tracker { hydra_base_url, stale_after_seconds, pending: HashMap::new() }
    }

    /// Starts tracking the build of `tracking`, whose record arrived in
    /// delivery `delivery_tag`. A record already held for the same build is
    /// replaced, and its delivery is returned to be acknowledged.
    pub fn on_tracking(&mut self, delivery_tag: u64, tracking: HydraBuildTracking) -> (replaced:
        Option<u64>)
        requires
            old(self).wf(),
        ensures
            final(self).wf(),
            final(self).base_url() == old(self).base_url(),
            final(self).stale_after() == old(self).stale_after(),
            final(self).pending_builds() == old(self).pending_builds().insert(
                tracking.build_id,
                PendingBuild { delivery_tag, tracking, last_published: None },
            ),
            match replaced {
                Some(tag) => old(self).pending_builds().contains_key(tracking.build_id)
                    && tag == old(self).pending_builds()[tracking.build_id].delivery_tag,
                None => !old(self).pending_builds().contains_key(tracking.build_id),
            },
    {
        let id = tracking.build_id;
        let old_entry = self.pending.insert(
            id,
            PendingBuild { delivery_tag, tracking, last_published: None },
        );
        match old_entry {
            Some(p) => Some(p.delivery_tag),
            None => None,
        }
    }

    /// What to publish for an event from the queue-runner. Lag reports,
    /// events of builds not tracked, and events that would republish what
    /// was last published give nothing; any other event gives the update
    /// that reports it. Nothing changes until the caller has published the
    /// update and calls [`Tracker::after_publish`].
    pub fn on_event(&self, event: &BuildEvent) -> (r: Option<HydraBuildUpdate>)
        ensures
            ({
                let p = self.pending_builds();
                let id = event.build_id;
                if event.kind is Lagged || !p.contains_key(id) || already_published(p[id], *event) {
                    r is None
                } else {
                    r matches Some(u) && is_update_for(u, p[id].tracking, *event, self.base_url())
                }
            }),
            r is Some <==> update_due(self.pending_builds(), *event),
    {
        if let BuildEventKind::Lagged { .. } = &event.kind {
            return None;
        }
        let id = event.build_id;
        match self.pending.get(&id) {
            None => None,
            Some(b) => {
                let update = build_update(&b.tracking, event, self.hydra_base_url.as_str());
                let seen = match &b.last_published {
                    Some(last) => state_eq(&last.0, &update.state) && text_eq(
                        &last.1,
                        &update.machine,
                    ),
                    None => false,
                };
                if seen {
                    None
                } else {
                    Some(update)
                }
            },
        }
    }

    /// Records that the update for `event` was published. A terminal event
    /// ends the tracking of its build and hands back the delivery to
    /// acknowledge; any other event records the state and machine that
    /// were published. Lag reports and events of builds not tracked change
    /// nothing.
    pub fn after_publish(&mut self, event: &BuildEvent) -> (ack: Option<u64>)
        requires
            old(self).wf(),
        ensures
            final(self).wf(),
            final(self).base_url() == old(self).base_url(),
            final(self).stale_after() == old(self).stale_after(),
            ({
                let p = old(self).pending_builds();
                let id = event.build_id;
                if event.kind is Lagged || !p.contains_key(id) {
                    &&& final(self).pending_builds() == p
                    &&& ack is None
                } else if is_terminal_kind(event.kind) {
                    &&& final(self).pending_builds() == p.remove(id)
                    &&& ack == Some(p[id].delivery_tag)
                } else {
                    &&& final(self).pending_builds() == p.insert(
                        id,
                        PendingBuild {
                            delivery_tag: p[id].delivery_tag,
                            tracking: p[id].tracking,
                            last_published: Some((state_for(event.kind), event.machine)),
                        },
                    )
                    &&& ack is None
                }
            }),
            final(self).pending_builds() == tracked_after_publish(old(self).pending_builds(), *event),
            ack == acked_after_publish(old(self).pending_builds(), *event),
    {
        let ghost p = self.pending@;
        if let BuildEventKind::Lagged { .. } = &event.kind {
            return None;
        }
        let id = event.build_id;
        let entry = self.pending.remove(&id);
        match entry {
            None => {
                assert(self.pending@ =~= p);
                None
            },
            Some(mut b) => {
                if event.is_terminal() {
                    return Some(b.delivery_tag);
                }
                let update = build_update(&b.tracking, event, self.hydra_base_url.as_str());
                b.last_published = Some((update.state, update.machine));
                self.pending.insert(id, b);
                assert(self.pending@ =~= p.insert(id, self.pending@[id]));
                None
            },
        }
    }

    /// Ends the tracking of build `build_id` after its final update was
    /// published, and hands back its delivery to acknowledge; `None` where
    /// the build is not tracked.
    pub fn settle(&mut self, build_id: i32) -> (ack: Option<u64>)
        requires
            old(self).wf(),
        ensures
            final(self).wf(),
            final(self).base_url() == old(self).base_url(),
            final(self).stale_after() == old(self).stale_after(),
            final(self).pending_builds() == old(self).pending_builds().remove(build_id),
            match ack {
                Some(tag) => old(self).pending_builds().contains_key(build_id) && tag
                    == old(self).pending_builds()[build_id].delivery_tag,
                None => !old(self).pending_builds().contains_key(build_id),
            },
    {
        match self.pending.remove(&build_id) {
            Some(b) => Some(b.delivery_tag),
            None => None,
        }
    }

    /// The builds in flight that have waited at least the stale limit at
    /// `now`, each once.
    fn stale_builds(&self, now: i64) -> (ids: Vec<i32>)
        ensures
            ids@.no_duplicates(),
            forall|id: i32|
                #[trigger] ids@.contains(id) <==> (self.pending_builds().contains_key(id) && is_stale(
                    self.pending_builds()[id],
                    now,
                    self.stale_after(),
                )),
    {
        let mut ids: Vec<i32> = Vec::new();
        let ghost m = self.pending@;
        for k in it: self.pending.keys()
            invariant
                m == self.pending@,
                it.seq() == vstd::std_specs::hash::spec_keys_iter(&self.pending).remaining(),
                ids@.no_duplicates(),
                forall|id: i32|
                    #[trigger] ids@.contains(id) <==> ((exists|j: int|
                        0 <= j < it.index() && *it.seq()[j] == id) && m.contains_key(id)
                        && is_stale(m[id], now, self.stale_after_seconds)),
        {
            let q = *k;
            let ghost idx = it.index();
            let ghost before = ids@;
            assert(q == *it.seq()[idx]);
            assert(it.seq().no_duplicates());
            let mut stale = false;
            if self.pending.contains_key(&q) {
                let b = self.pending.get(&q).unwrap();
                stale = is_stale_at(b.tracking.queued_at, now, self.stale_after_seconds);
            }
            if stale {
                assert(!before.contains(q)) by {
                    if before.contains(q) {
                        let j = choose|j: int| 0 <= j < idx && *it.seq()[j] == q;
                        assert(it.seq()[j] == it.seq()[idx]);
                    }
                }
                ids.push(q);
            }
            assert forall|id: i32|
                #[trigger] ids@.contains(id) <==> ((exists|j: int|
                    0 <= j < idx + 1 && *it.seq()[j] == id) && m.contains_key(id) && is_stale(
                    m[id],
                    now,
                    self.stale_after_seconds,
                )) by {
                if ids@.contains(id) && id != q {
                    assert(before.contains(id));
                }
                if (exists|j: int| 0 <= j < idx + 1 && *it.seq()[j] == id) && m.contains_key(id)
                    && is_stale(m[id], now, self.stale_after_seconds) {
                    let j = choose|j: int| 0 <= j < idx + 1 && *it.seq()[j] == id;
                    if j < idx {
                        assert(before.contains(id));
                        assert(ids@.contains(id)) by {
                            let w = choose|w: int| 0 <= w < before.len() && before[w] == id;
                            assert(ids@[w] == id);
                        }
                    } else {
                        assert(ids@.contains(id)) by {
                            assert(ids@[ids@.len() - 1] == q);
                        }
                    }
                }
            }
        }
        ids
    }
    /// The updates that give up on every build in flight that has waited at
    /// least the stale limit at `now`: each reported as finished and timed
    /// out, one per such build, in no particular order. The records stay
    /// until the caller has published an update and calls
    /// [`Tracker::settle`] for its build, so a build whose update could not
    /// be published is still tracked.
    pub fn sweep(&self, now: i64) -> (r: Vec<HydraBuildUpdate>)
        requires
            self.wf(),
        ensures
            forall|i: int|
                0 <= i < r.len() ==> {
                    let id = #[trigger] r@[i].build_id;
                    &&& self.pending_builds().contains_key(id)
                    &&& is_stale(self.pending_builds()[id], now, self.stale_after())
                    &&& is_update_for(
                        r@[i],
                        self.pending_builds()[id].tracking,
                        timed_out_event(id),
                        self.base_url(),
                    )
                },
            forall|id: i32|
                self.pending_builds().contains_key(id) && is_stale(
                    #[trigger] self.pending_builds()[id],
                    now,
                    self.stale_after(),
                ) ==> exists|i: int| 0 <= i < r.len() && r@[i].build_id == id,
            forall|i: int, j: int| 0 <= i < j < r.len() ==> r@[i].build_id != r@[j].build_id,
    {
        let ids = self.stale_builds(now);
        let mut r: Vec<HydraBuildUpdate> = Vec::new();
        let mut i: usize = 0;
        while i < ids.len()
            invariant
                self.wf(),
                i <= ids.len(),
                ids@.no_duplicates(),
                forall|id: i32|
                    #[trigger] ids@.contains(id) <==> (self.pending@.contains_key(id) && is_stale(
                        self.pending@[id],
                        now,
                        self.stale_after_seconds,
                    )),
                r.len() == i,
                forall|k: int|
                    0 <= k < i ==> {
                        &&& #[trigger] r@[k].build_id == ids@[k]
                        &&& is_update_for(
                            r@[k],
                            self.pending@[ids@[k]].tracking,
                            timed_out_event(ids@[k]),
                            self.hydra_base_url@,
                        )
                    },
            decreases ids.len() - i,
        {
            let id = ids[i];
            assert(ids@.contains(id));
            let b = self.pending.get(&id).unwrap();
            let event = BuildEvent {
                build_id: id,
                machine: None,
                kind: BuildEventKind::Finished { status: BuildStatus::TimedOut },
            };
            let update = build_update(&b.tracking, &event, self.hydra_base_url.as_str());
            assert(b.tracking == self.pending@[id].tracking);
            assert(self.pending_builds().contains_key(id));
            assert(b.tracking.build_id == id);
            let ghost before = r@;
            r.push(update);
            assert(r@[i as int] == update);
            assert forall|k: int| 0 <= k < i implies #[trigger] r@[k] == before[k] by {}
            i = i + 1;
        }
        assert forall|k: int| 0 <= k < r.len() implies self.pending@.contains_key(
            #[trigger] r@[k].build_id,
        ) && is_stale(self.pending@[r@[k].build_id], now, self.stale_after_seconds) by {
            assert(ids@.contains(ids@[k]));
        }
        assert forall|id: i32|
            self.pending@.contains_key(id) && is_stale(
                #[trigger] self.pending@[id],
                now,
                self.stale_after_seconds,
            ) implies exists|k: int| 0 <= k < r.len() && r@[k].build_id == id by {
            assert(ids@.contains(id));
            let k = choose|k: int| 0 <= k < ids.len() && ids@[k] == id;
            assert(r@[k].build_id == id);
        }
        assert forall|a: int, c: int| 0 <= a < c < r.len() implies r@[a].build_id
            != r@[c].build_id by {
            assert(ids@[a] != ids@[c]);
        }
        r
    }
}

/// Once the update for an event has been published and recorded
/// ([`Tracker::after_publish`]), the same event gives nothing more to
/// publish ([`Tracker::on_event`]): a terminal event has ended the
/// tracking of its build, and any other is what was last published.
pub proof fn law_a_recorded_event_is_not_published_again(
    p: Map<i32, PendingBuild>,
    event: BuildEvent,
)
    requires
        p.contains_key(event.build_id),
        !(event.kind is Lagged),
    ensures
        ({
            let id = event.build_id;
            let next = if is_terminal_kind(event.kind) {
                p.remove(id)
            } else {
                p.insert(
                    id,
                    PendingBuild {
                        delivery_tag: p[id].delivery_tag,
                        tracking: p[id].tracking,
                        last_published: Some((state_for(event.kind), event.machine)),
                    },
                )
            };
            !next.contains_key(id) || already_published(next[id], event)
        }),
{
}

/// The deliveries held by the records of `m`: those still to be
/// acknowledged.
pub open spec fn held_deliveries(m: Map<i32, PendingBuild>) -> Set<u64> {
    Set::new(|tag: u64| exists|id: i32| #[trigger] m.contains_key(id) && m[id].delivery_tag == tag)
}

/// No two records of `m` hold the same delivery.
pub open spec fn distinct_deliveries(m: Map<i32, PendingBuild>) -> bool {
    forall|a: i32, b: i32|
        #[trigger] m.contains_key(a) && #[trigger] m.contains_key(b) && a != b ==> m[a].delivery_tag
            != m[b].delivery_tag
}

/// The deliveries left unacknowledged are exactly those of the builds in
/// flight. Taking a record in a new delivery holds that delivery and
/// releases the one of the record it replaces (which
/// [`Tracker::on_tracking`] hands back to acknowledge); ending a build
/// releases its delivery (which [`Tracker::after_publish`] and
/// [`Tracker::settle`] hand back); recording what was published holds the
/// same deliveries.
pub proof fn law_unacknowledged_deliveries_are_the_builds_in_flight(
    m: Map<i32, PendingBuild>,
    id: i32,
    record: PendingBuild,
)
    requires
        distinct_deliveries(m),
        !held_deliveries(m).contains(record.delivery_tag) || (m.contains_key(id)
            && m[id].delivery_tag == record.delivery_tag),
    ensures
        held_deliveries(m.insert(id, record)) == (if m.contains_key(id) {
            held_deliveries(m).remove(m[id].delivery_tag)
        } else {
            held_deliveries(m)
        }).insert(record.delivery_tag),
        distinct_deliveries(m.insert(id, record)),
        m.contains_key(id) ==> held_deliveries(m.remove(id)) == held_deliveries(m).remove(
            m[id].delivery_tag,
        ),
        distinct_deliveries(m.remove(id)),
{
    let m2 = m.insert(id, record);
    let before = if m.contains_key(id) {
        held_deliveries(m).remove(m[id].delivery_tag)
    } else {
        held_deliveries(m)
    };
    assert forall|t: u64| held_deliveries(m2).contains(t) <==> before.insert(record.delivery_tag).contains(t) by {
        if held_deliveries(m2).contains(t) && t != record.delivery_tag {
            let k = choose|k: i32| #[trigger] m2.contains_key(k) && m2[k].delivery_tag == t;
            assert(k != id);
            assert(m.contains_key(k) && m[k].delivery_tag == t);
            assert(held_deliveries(m).contains(t));
        }
        if before.contains(t) {
            let k = choose|k: i32| #[trigger] m.contains_key(k) && m[k].delivery_tag == t;
            if k == id {
                assert(false);
            }
            assert(m2.contains_key(k) && m2[k].delivery_tag == t);
        }
        if t == record.delivery_tag {
            assert(m2.contains_key(id) && m2[id].delivery_tag == t);
        }
    }
    assert(held_deliveries(m2) =~= before.insert(record.delivery_tag));
    assert forall|a: i32, b: i32|
        #[trigger] m2.contains_key(a) && #[trigger] m2.contains_key(b) && a != b implies m2[a].delivery_tag
            != m2[b].delivery_tag by {
        if a == id {
            assert(m.contains_key(b));
            assert(held_deliveries(m).contains(m[b].delivery_tag));
        } else if b == id {
            assert(m.contains_key(a));
            assert(held_deliveries(m).contains(m[a].delivery_tag));
        }
    }
    if m.contains_key(id) {
        let m3 = m.remove(id);
        assert forall|t: u64| held_deliveries(m3).contains(t) <==> held_deliveries(m).remove(
            m[id].delivery_tag,
        ).contains(t) by {
            if held_deliveries(m3).contains(t) {
                let k = choose|k: i32| #[trigger] m3.contains_key(k) && m3[k].delivery_tag == t;
                assert(m.contains_key(k) && m[k].delivery_tag == t);
            }
            if held_deliveries(m).remove(m[id].delivery_tag).contains(t) {
                let k = choose|k: i32| #[trigger] m.contains_key(k) && m[k].delivery_tag == t;
                assert(k != id);
                assert(m3.contains_key(k) && m3[k].delivery_tag == t);
            }
        }
        assert(held_deliveries(m3) =~= held_deliveries(m).remove(m[id].delivery_tag));
    }
}

} // verus!
