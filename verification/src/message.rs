//! Messages the bot's services exchange about repositories, pull requests
//! and Hydra builds.

use vstd::prelude::*;
use vstd::string::StringExecFns;

use crate::text::{append_i64, int_decimal};

verus! {

/// A GitHub repository.
#[derive(Debug, PartialEq, Eq)]
pub struct Repo {
    pub owner: String,
    pub name: String,
    pub full_name: String,
    pub clone_url: String,
}

impl Clone for Repo {
    fn clone(&self) -> (r: Self)
        ensures
            r == *self,
    {
        Repo {
            owner: self.owner.clone(),
            name: self.name.clone(),
            full_name: self.full_name.clone(),
            clone_url: self.clone_url.clone(),
        }
    }
}

/// A pull request: its number, the branch it targets and its head commit.
#[derive(Debug, PartialEq, Eq)]
pub struct Pr {
    pub target_branch: Option<String>,
    pub number: u64,
    pub head_sha: String,
}

impl Clone for Pr {
    fn clone(&self) -> (r: Self)
        ensures
            r == *self,
    {
        Pr {
            target_branch: self.target_branch.clone(),
            number: self.number,
            head_sha: self.head_sha.clone(),
        }
    }
}

/// How a build ended.
#[derive(Debug, PartialEq, Eq)]
pub enum BuildStatus {
    Skipped,
    Success,
    Failure,
    TimedOut,
    HashMismatch,
    UnexpectedError { err: String },
}

impl Clone for BuildStatus {
    fn clone(&self) -> (r: Self)
        ensures
            r == *self,
    {
        match self {
            BuildStatus::Skipped => BuildStatus::Skipped,
            BuildStatus::Success => BuildStatus::Success,
            BuildStatus::Failure => BuildStatus::Failure,
            BuildStatus::TimedOut => BuildStatus::TimedOut,
            BuildStatus::HashMismatch => BuildStatus::HashMismatch,
            BuildStatus::UnexpectedError { err } => BuildStatus::UnexpectedError {
                err: err.clone(),
            },
        }
    }
}

/// Marks a build update as the first version of the Hydra message format.
#[derive(Debug, PartialEq, Eq, Clone, Copy)]
pub enum HydraV1Tag {
    HydraV1,
}

/// Where a Hydra build stands.
#[derive(Debug, PartialEq, Eq)]
pub enum HydraBuildState {
    Queued,
    Running { step: Option<String> },
    Finished { status: BuildStatus },
}

impl Clone for HydraBuildState {
    fn clone(&self) -> (r: Self)
        ensures
            r == *self,
    {
        match self {
            HydraBuildState::Queued => HydraBuildState::Queued,
            HydraBuildState::Running { step } => HydraBuildState::Running { step: step.clone() },
            HydraBuildState::Finished { status } => HydraBuildState::Finished {
                status: status.clone(),
            },
        }
    }
}

/// The record kept for a build handed to Hydra: which pull request caused
/// it, what it builds, and when it was queued (seconds since the epoch).
#[derive(Debug, PartialEq, Eq)]
pub struct HydraBuildTracking {
    pub repo: Repo,
    pub pr: Pr,
    pub attr: String,
    pub system: String,
    pub drv_path: String,
    pub build_id: i32,
    pub jobset_id: i32,
    pub request_id: String,
    pub queued_at: i64,
}

impl Clone for HydraBuildTracking {
    fn clone(&self) -> (r: Self)
        ensures
            r == *self,
    {
        HydraBuildTracking {
            repo: self.repo.clone(),
            pr: self.pr.clone(),
            attr: self.attr.clone(),
            system: self.system.clone(),
            drv_path: self.drv_path.clone(),
            build_id: self.build_id,
            jobset_id: self.jobset_id,
            request_id: self.request_id.clone(),
            queued_at: self.queued_at,
        }
    }
}

/// What is published about a Hydra build for the pull request it belongs to.
#[derive(Debug, PartialEq, Eq)]
pub struct HydraBuildUpdate {
    pub tag: HydraV1Tag,
    pub repo: Repo,
    pub pr: Pr,
    pub attr: String,
    pub system: String,
    pub build_id: i32,
    pub machine: Option<String>,
    pub state: HydraBuildState,
    pub hydra_base_url: String,
}

/// The page of build `build_id` on the Hydra instance at `base`.
pub open spec fn build_details_url(base: Seq<char>, build_id: i32) -> Seq<char> {
    base + "/build/"@ + int_decimal(build_id as int)
}

impl HydraBuildUpdate {
    /// The Hydra page of the build: `<hydra_base_url>/build/<build_id>`.
    pub fn details_url(&self) -> (r: String)
        ensures
            r@ == build_details_url(self.hydra_base_url@, self.build_id),
    {
        let mut r = self.hydra_base_url.clone();
        r.append("/build/");
        append_i64(&mut r, self.build_id as i64);
        r
    }
}

/// One derivation of an evaluation handed to Hydra: the attribute it was
/// evaluated from and its store path.
#[derive(Debug, PartialEq, Eq)]
pub struct HydraEvalDrv {
    pub attr: String,
    pub drv_path: String,
}

impl Clone for HydraEvalDrv {
    fn clone(&self) -> (r: Self)
        ensures
            r == *self,
    {
        HydraEvalDrv { attr: self.attr.clone(), drv_path: self.drv_path.clone() }
    }
}

/// An evaluation to hand to Hydra: the pull request it belongs to, the
/// platform, the jobset that receives the builds and the request's id.
#[derive(Debug, PartialEq, Eq)]
pub struct HydraEvalJob {
    pub repo: Repo,
    pub pr: Pr,
    pub system: String,
    pub jobset_id: i32,
    pub request_id: String,
}

} // verus!
