//! Handing evaluated derivations to Hydra and keeping track of the builds.

use vstd::prelude::*;

use crate::message::{
    HydraBuildState, HydraBuildTracking, HydraBuildUpdate, HydraEvalDrv, HydraEvalJob, HydraV1Tag,
};
use crate::text::{chars_of, copy_range, str_eq, string_from_chars};

verus! {

/// Queue the mass rebuilder publishes evaluated derivations to.
pub const HYDRA_EVAL_JOBS_QUEUE: &'static str = "hydra-eval-jobs";

/// Durable queue holding one record per Hydra build in flight.
pub const HYDRA_BUILD_TRACKING_QUEUE: &'static str = "hydra-build-tracking";

/// Fanout exchange the comment poster consumes build results from.
pub const BUILD_RESULTS_EXCHANGE: &'static str = "build-results";

/// A point in time of the system clock (`std::time::SystemTime`), carried
/// through opaquely.
#[verifier::external_type_specification]
#[verifier::external_body]
pub struct ExSystemTime(std::time::SystemTime);

/// Reads the system clock (`SystemTime::now`). The value depends on the
/// time of the call, so nothing is promised of it.
#[verifier::external_body]
fn clock_now() -> (t: std::time::SystemTime) {
    std::time::SystemTime::now()
}

/// The time from the Unix epoch to `t` (`SystemTime::duration_since` with
/// `UNIX_EPOCH`); `None` when `t` lies before the epoch. Both are opaque
/// here, so nothing is promised of the result.
#[verifier::external_body]
fn since_unix_epoch(t: &std::time::SystemTime) -> (r: Option<std::time::Duration>) {
    match t.duration_since(std::time::UNIX_EPOCH) {
        Ok(d) => Some(d),
        Err(_) => None,
    }
}

/// The whole seconds of `d` (`Duration::as_secs`). `Duration` is opaque
/// here, so nothing is promised of the result.
#[verifier::external_body]
fn whole_seconds(d: &std::time::Duration) -> (r: u64) {
    d.as_secs()
}

/// Reads the clock: the seconds since the Unix epoch, `None` when the clock
/// is set before 1970.
fn seconds_since_epoch() -> (r: Option<u64>) {
    let now = clock_now();
    match since_unix_epoch(&now) {
        Some(d) => Some(whole_seconds(&d)),
        None => None,
    }
}

/// The clock reading `secs` as a signed number of seconds: zero for a clock
/// before 1970, saturating at `i64::MAX`.
pub open spec fn epoch_seconds_value(secs: Option<u64>) -> i64 {
    match secs {
        None => 0,
        Some(s) => if s > i64::MAX as u64 {
            i64::MAX
        } else {
            s as i64
        },
    }
}

/// Converts a clock reading with [`epoch_seconds_value`].
pub fn epoch_seconds(secs: Option<u64>) -> (r: i64)
    ensures
        r == epoch_seconds_value(secs),
{
    match secs {
        None => 0,
        Some(s) => if s > i64::MAX as u64 {
            i64::MAX
        } else {
            s as i64
        },
    }
}

/// Seconds since the Unix epoch, saturating rather than failing on a clock
/// set before 1970.
pub fn unix_now() -> (r: i64)
    ensures
        r >= 0,
{
    epoch_seconds(seconds_since_epoch())
}

/// The build id the queue-runner reported for `key`: the first pair under
/// that key.
pub open spec fn build_id_under(ids: Seq<(String, i32)>, key: Seq<char>) -> Option<i32>
    decreases ids.len(),
{
    if ids.len() == 0 {
        None
    } else if ids[0].0@ == key {
        Some(ids[0].1)
    } else {
        build_id_under(ids.skip(1), key)
    }
}

/// What follows the last `/` of `s`, or all of `s` when it has none.
pub open spec fn last_segment(s: Seq<char>) -> Seq<char> {
    if exists|i: int| 0 <= i < s.len() && s[i] == '/' {
        let i = choose|i: int|
            0 <= i < s.len() && s[i] == '/' && forall|j: int| i < j < s.len() ==> s[j] != '/';
        s.skip(i + 1)
    } else {
        s
    }
}

/// The build id of a derivation: looked up under its full store path, and
/// failing that under the path's last component.
pub open spec fn spec_lookup_build_id(ids: Seq<(String, i32)>, drv_path: Seq<char>) -> Option<i32> {
    match build_id_under(ids, drv_path) {
        Some(id) => Some(id),
        None => build_id_under(ids, last_segment(drv_path)),
    }
}

fn find_build_id(build_ids: &Vec<(String, i32)>, key: &str) -> (r: Option<i32>)
    ensures
        r == build_id_under(build_ids@, key@),
{
    let mut k: usize = 0;
    assert(build_ids@.skip(0) =~= build_ids@);
    while k < build_ids.len()
        invariant
            k <= build_ids.len(),
            build_id_under(build_ids@, key@) == build_id_under(build_ids@.skip(k as int), key@),
        decreases build_ids.len() - k,
    {
        assert(build_ids@.skip(k as int).skip(1) =~= build_ids@.skip(k + 1));
        if str_eq(build_ids[k].0.as_str(), key) {
            return Some(build_ids[k].1);
        }
        k = k + 1;
    }
    None
}

fn last_path_segment(s: &str) -> (r: String)
    ensures
        r@ == last_segment(s@),
{
    let v = chars_of(s);
    let mut i: usize = v.len();
    while i > 0
        invariant
            i <= v.len(),
            v@ == s@,
            forall|j: int| i <= j < v.len() ==> v@[j] != '/',
        decreases i,
    {
        if v[i - 1] == '/' {
            proof {
                let k = choose|k: int|
                    0 <= k < s@.len() && s@[k] == '/' && forall|j: int| k < j < s@.len() ==> s@[j]
                        != '/';
                assert(k == i - 1) by {
                    if k < i - 1 {
                        assert(s@[i - 1] != '/');
                    }
                    if k > i - 1 {
                        assert(v@[k] != '/');
                    }
                }
            }
            let tail = copy_range(&v, i, v.len());
            assert(tail@ =~= s@.skip(i as int));
            return string_from_chars(tail.as_slice());
        }
        i = i - 1;
    }
    s.to_owned()
}

/// The build id the queue-runner gave the derivation at `drv_path`. Its
/// answer is keyed by store path, either the full path or the last
/// component of it; both are tried, in that order.
pub fn lookup_build_id(build_ids: &Vec<(String, i32)>, drv_path: &str) -> (r: Option<i32>)
    ensures
        r == spec_lookup_build_id(build_ids@, drv_path@),
{
    match find_build_id(build_ids, drv_path) {
        Some(id) => Some(id),
        None => {
            let base = last_path_segment(drv_path);
            find_build_id(build_ids, base.as_str())
        },
    }
}

/// The derivations of `drvs` that the queue-runner created a build for,
/// in order, each with its build id.
pub open spec fn created_builds(drvs: Seq<HydraEvalDrv>, ids: Seq<(String, i32)>) -> Seq<
    (HydraEvalDrv, i32),
>
    decreases drvs.len(),
{
    if drvs.len() == 0 {
        seq![]
    } else {
        let rest = created_builds(drvs.drop_last(), ids);
        match spec_lookup_build_id(ids, drvs.last().drv_path@) {
            Some(id) => rest.push((drvs.last(), id)),
            None => rest,
        }
    }
}

/// `t` is the tracking record of build `build_id` of derivation `drv` of
/// `job`, queued at `queued_at`.
pub open spec fn is_tracking_record(
    t: HydraBuildTracking,
    job: HydraEvalJob,
    drv: HydraEvalDrv,
    build_id: i32,
    queued_at: i64,
) -> bool {
    &&& t.repo == job.repo
    &&& t.pr == job.pr
    &&& t.attr == drv.attr
    &&& t.system == job.system
    &&& t.drv_path == drv.drv_path
    &&& t.build_id == build_id
    &&& t.jobset_id == job.jobset_id
    &&& t.request_id == job.request_id
    &&& t.queued_at == queued_at
}

/// `u` announces build `build_id` of derivation `drv` of `job` as queued on
/// the Hydra instance at `base`.
pub open spec fn is_queued_update(
    u: HydraBuildUpdate,
    job: HydraEvalJob,
    drv: HydraEvalDrv,
    build_id: i32,
    base: Seq<char>,
) -> bool {
    &&& u.tag == HydraV1Tag::HydraV1
    &&& u.repo == job.repo
    &&& u.pr == job.pr
    &&& u.attr == drv.attr
    &&& u.system == job.system
    &&& u.build_id == build_id
    &&& u.machine is None
    &&& u.state == HydraBuildState::Queued
    &&& u.hydra_base_url@ == base
}

/// For each derivation of `job` that the queue-runner created a build for,
/// in order: the tracking record to hand to the tracker and the update that
/// shows the build as queued on the pull request. Derivations without a
/// build id are left out.
pub fn tracking_records(
    job: &HydraEvalJob,
    drvs: &Vec<HydraEvalDrv>,
    build_ids: &Vec<(String, i32)>,
    queued_at: i64,
    hydra_base_url: &str,
) -> (r: Vec<(HydraBuildTracking, HydraBuildUpdate)>)
    ensures
        r.len() == created_builds(drvs@, build_ids@).len(),
        forall|i: int|
            0 <= i < r.len() ==> {
                let (drv, id) = #[trigger] created_builds(drvs@, build_ids@)[i];
                &&& is_tracking_record(r@[i].0, *job, drv, id, queued_at)
                &&& is_queued_update(r@[i].1, *job, drv, id, hydra_base_url@)
            },
{
    let mut r: Vec<(HydraBuildTracking, HydraBuildUpdate)> = Vec::new();
    let mut k: usize = 0;
    while k < drvs.len()
        invariant
            k <= drvs.len(),
            r.len() == created_builds(drvs@.take(k as int), build_ids@).len(),
            forall|i: int|
                0 <= i < r.len() ==> {
                    let (drv, id) = #[trigger] created_builds(drvs@.take(k as int), build_ids@)[i];
                    &&& is_tracking_record(r@[i].0, *job, drv, id, queued_at)
                    &&& is_queued_update(r@[i].1, *job, drv, id, hydra_base_url@)
                },
        decreases drvs.len() - k,
    {
        let drv = &drvs[k];
        assert(drvs@.take(k + 1).drop_last() =~= drvs@.take(k as int));
        assert(drvs@.take(k + 1).last() == drvs@[k as int]);
        match lookup_build_id(build_ids, drv.drv_path.as_str()) {
            Some(build_id) => {
                let tracking = HydraBuildTracking {
                    repo: job.repo.clone(),
                    pr: job.pr.clone(),
                    attr: drv.attr.clone(),
                    system: job.system.clone(),
                    drv_path: drv.drv_path.clone(),
                    build_id,
                    jobset_id: job.jobset_id,
                    request_id: job.request_id.clone(),
                    queued_at,
                };
                let queued = HydraBuildUpdate {
                    tag: HydraV1Tag::HydraV1,
                    repo: job.repo.clone(),
                    pr: job.pr.clone(),
                    attr: drv.attr.clone(),
                    system: job.system.clone(),
                    build_id,
                    machine: None,
                    state: HydraBuildState::Queued,
                    hydra_base_url: hydra_base_url.to_owned(),
                };
                r.push((tracking, queued));
            },
            None => {},
        }
        k = k + 1;
    }
    assert(drvs@.take(k as int) =~= drvs@);
    r
}

/// The stages an evaluation job goes through: decoding the delivery,
/// checking it names derivations, importing them into the queue-runner's
/// store, creating the builds, handing the tracking records over.
#[derive(Debug, PartialEq, Eq, Clone, Copy)]
pub enum EvalJobStage {
    Decode,
    CheckDerivations,
    Import,
    CreateBuilds,
    PublishTracking,
}

/// What to do after a stage of a job.
#[derive(Debug, PartialEq, Eq, Clone, Copy)]
pub enum EvalJobStep {
    /// Go on with the next stage.
    Next,
    /// Acknowledge the delivery: the job is done, or can never be done.
    Ack,
    /// Put the delivery back on the queue for another try.
    Requeue,
}

/// The step after `stage` went well (`ok`) or not. A delivery that does not
/// decode, or names no derivation, is acknowledged, since no retry could
/// help; a failure to import, create or hand over builds requeues the job,
/// so that no build goes unreported; a job is acknowledged once its
/// tracking records are handed over.
pub fn eval_job_step(stage: EvalJobStage, ok: bool) -> (r: EvalJobStep)
    ensures
        stage == EvalJobStage::PublishTracking && ok ==> r == EvalJobStep::Ack,
        stage != EvalJobStage::PublishTracking && ok ==> r == EvalJobStep::Next,
        !ok && (stage == EvalJobStage::Decode || stage == EvalJobStage::CheckDerivations) ==> r
            == EvalJobStep::Ack,
        !ok && !(stage == EvalJobStage::Decode || stage == EvalJobStage::CheckDerivations) ==> r
            == EvalJobStep::Requeue,
{
    match stage {
        EvalJobStage::Decode | EvalJobStage::CheckDerivations => if ok {
            EvalJobStep::Next
        } else {
            EvalJobStep::Ack
        },
        EvalJobStage::Import | EvalJobStage::CreateBuilds => if ok {
            EvalJobStep::Next
        } else {
            EvalJobStep::Requeue
        },
        EvalJobStage::PublishTracking => if ok {
            EvalJobStep::Ack
        } else {
            EvalJobStep::Requeue
        },
    }
}

} // verus!
