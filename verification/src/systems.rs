//! The platforms that builds run on.

use vstd::prelude::*;
use vstd::string::StringExecFns;

verus! {

/// A platform that builders serve.
#[derive(PartialEq, Eq, Debug, Clone, Copy)]
pub enum System {
    X8664Linux,
    Aarch64Linux,
    X8664Darwin,
    Aarch64Darwin,
}

/// The Nix name of a platform.
pub open spec fn system_name(s: System) -> Seq<char> {
    match s {
        System::X8664Linux => "x86_64-linux"@,
        System::Aarch64Linux => "aarch64-linux"@,
        System::X8664Darwin => "x86_64-darwin"@,
        System::Aarch64Darwin => "aarch64-darwin"@,
    }
}

/// Name of the queue that carries the build jobs of a platform.
pub open spec fn build_queue_name(s: System) -> Seq<char> {
    "build-inputs-"@ + system_name(s)
}

impl System {
    /// The Nix name of the platform, such as `x86_64-linux`.
    pub fn name(&self) -> (r: String)
        ensures
            r@ == system_name(*self),
    {
        match self {
            System::X8664Linux => "x86_64-linux".to_owned(),
            System::Aarch64Linux => "aarch64-linux".to_owned(),
            System::X8664Darwin => "x86_64-darwin".to_owned(),
            System::Aarch64Darwin => "aarch64-darwin".to_owned(),
        }
    }

    /// Where build jobs for this platform are published: no exchange, and
    /// the routing key `build-inputs-<system>`.
    pub fn as_build_destination(&self) -> (r: (Option<String>, Option<String>))
        ensures
            r.0 is None,
            r.1 matches Some(k) && k@ == build_queue_name(*self),
    {
        let mut key = "build-inputs-".to_owned();
        let name = self.name();
        key.append(name.as_str());
        (None, Some(key))
    }
}

} // verus!
