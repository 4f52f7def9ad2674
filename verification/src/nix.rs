//! How the bot runs Nix.

use vstd::prelude::*;

verus! {

/// A Nix program the bot runs.
#[derive(PartialEq, Eq, Debug, Clone)]
pub enum Operation {
    Instantiate,
    Build,
    QueryPackagesJson,
    QueryPackagesOutputs,
    Unknown { program: String },
}

/// The command line that starts an operation.
pub open spec fn operation_command(op: Operation) -> Seq<char> {
    match op {
        Operation::Instantiate => "nix-instantiate"@,
        Operation::Build => "nix-build"@,
        Operation::QueryPackagesJson => "nix-env -qa --json"@,
        Operation::QueryPackagesOutputs => "nix-env -qaP --no-name --out-path"@,
        Operation::Unknown { program } => program@,
    }
}

impl Operation {
    /// The command line that starts this operation, such as `nix-build`.
    pub fn command(&self) -> (r: String)
        ensures
            r@ == operation_command(*self),
    {
        match self {
            Operation::Instantiate => "nix-instantiate".to_owned(),
            Operation::Build => "nix-build".to_owned(),
            Operation::QueryPackagesJson => "nix-env -qa --json".to_owned(),
            Operation::QueryPackagesOutputs => "nix-env -qaP --no-name --out-path".to_owned(),
            Operation::Unknown { program } => program.clone(),
        }
    }
}

/// How Nix is invoked: for which platform, against which store, with which
/// build timeout and initial heap size.
#[derive(Debug, Clone)]
pub struct Nix {
    pub system: String,
    pub remote: String,
    pub build_timeout: u16,
    pub initial_heap_size: Option<String>,
}

impl Nix {
    pub fn new(
        system: String,
        remote: String,
        build_timeout: u16,
        initial_heap_size: Option<String>,
    ) -> (n: Nix)
        ensures
            n.system == system,
            n.remote == remote,
            n.build_timeout == build_timeout,
            n.initial_heap_size == initial_heap_size,
    {
        Nix { system, remote, build_timeout, initial_heap_size }
    }

    /// The same settings for another platform.
    pub fn with_system(&self, system: String) -> (n: Nix)
        ensures
            n.system == system,
            n.remote == self.remote,
            n.build_timeout == self.build_timeout,
            n.initial_heap_size == self.initial_heap_size,
    {
        Nix {
            system,
            remote: self.remote.clone(),
            build_timeout: self.build_timeout,
            initial_heap_size: self.initial_heap_size.clone(),
        }
    }
}

} // verus!
