//! Who may ask the bot for what.

use vstd::prelude::*;

use crate::systems::{build_queue_name, System};
use crate::text::{str_eq, to_lowercase, unicode_lowercase};

verus! {

/// The repositories the bot serves and the users trusted with builds on
/// every platform. Trusted user names are kept lowercased.
pub struct Acl {
    trusted_users: Option<Vec<String>>,
    repos: Vec<String>,
}

/// The mathematical value of an [`Acl`].
pub struct AclView {
    pub trusted_users: Option<Seq<Seq<char>>>,
    pub repos: Seq<Seq<char>>,
}

/// The character sequences of a vector of strings.
pub open spec fn names(v: Seq<String>) -> Seq<Seq<char>> {
    v.map_values(|t: String| t@)
}

impl View for Acl {
    type V = AclView;

    closed spec fn view(&self) -> AclView {
        AclView {
            trusted_users: match self.trusted_users {
                Some(u) => Some(names(u@)),
                None => None,
            },
            repos: names(self.repos@),
        }
    }
}

/// The full name of the repository whose trusted users are consulted.
pub open spec fn nixpkgs_repo() -> Seq<char> {
    "nixos/nixpkgs"@
}

/// Whether `user` may build on every platform for `repo`.
pub open spec fn spec_can_build_unrestricted(acl: AclView, user: Seq<char>, repo: Seq<char>) -> bool {
    match acl.trusted_users {
        Some(users) => if unicode_lowercase(repo) == nixpkgs_repo() {
            users.contains(unicode_lowercase(user))
        } else {
            user == "grahamc"@
        },
        None => true,
    }
}

/// On nixpkgs, with the trusted users `users` as configured (the access
/// list keeps them lowercased, as [`Acl::new`] does), a user may build on
/// every platform exactly when the user's name, lowercased, is the
/// lowercased name of a trusted user; so two names that lowercase alike
/// get the same answer, and the answer is all four platforms or the two
/// Linux ones.
pub proof fn law_trusted_users_are_matched_ignoring_case(
    repos: Seq<Seq<char>>,
    users: Seq<Seq<char>>,
    user: Seq<char>,
    other: Seq<char>,
    repo: Seq<char>,
)
    requires
        unicode_lowercase(repo) == "nixos/nixpkgs"@,
    ensures
        ({
            let acl = AclView {
                trusted_users: Some(users.map_values(|n: Seq<char>| unicode_lowercase(n))),
                repos,
            };
            &&& spec_can_build_unrestricted(acl, user, repo) <==> exists|i: int|
                0 <= i < users.len() && unicode_lowercase(#[trigger] users[i])
                    == unicode_lowercase(user)
            &&& unicode_lowercase(user) == unicode_lowercase(other) ==> spec_can_build_unrestricted(
                acl,
                user,
                repo,
            ) == spec_can_build_unrestricted(acl, other, repo)
            &&& spec_can_build_unrestricted(acl, user, repo) ==> spec_architectures(
                spec_can_build_unrestricted(acl, user, repo),
            ) == seq![
                System::X8664Darwin,
                System::X8664Linux,
                System::Aarch64Darwin,
                System::Aarch64Linux,
            ]
            &&& !spec_can_build_unrestricted(acl, user, repo) ==> spec_architectures(
                spec_can_build_unrestricted(acl, user, repo),
            ) == seq![System::X8664Linux, System::Aarch64Linux]
        }),
{
    let lowered = users.map_values(|n: Seq<char>| unicode_lowercase(n));
    if lowered.contains(unicode_lowercase(user)) {
        let i = choose|i: int| 0 <= i < lowered.len() && lowered[i] == unicode_lowercase(user);
        assert(unicode_lowercase(users[i]) == unicode_lowercase(user));
    }
    if exists|i: int| 0 <= i < users.len() && unicode_lowercase(#[trigger] users[i])
        == unicode_lowercase(user) {
        let i = choose|i: int| 0 <= i < users.len() && unicode_lowercase(#[trigger] users[i])
            == unicode_lowercase(user);
        assert(lowered[i] == unicode_lowercase(user));
    }
}

/// Without a trusted-user list everybody may build on every platform of
/// every repository; with one, on a repository other than nixpkgs only
/// `grahamc` may.
pub proof fn law_who_builds_everywhere_outside_nixpkgs(
    repos: Seq<Seq<char>>,
    users: Seq<Seq<char>>,
    user: Seq<char>,
    repo: Seq<char>,
)
    ensures
        spec_can_build_unrestricted(AclView { trusted_users: None, repos }, user, repo),
        unicode_lowercase(repo) != "nixos/nixpkgs"@ ==> (spec_can_build_unrestricted(
            AclView {
                trusted_users: Some(users.map_values(|n: Seq<char>| unicode_lowercase(n))),
                repos,
            },
            user,
            repo,
        ) <==> user == "grahamc"@),
{
}

/// The platforms `user` may build on for `repo`.
pub open spec fn spec_architectures(unrestricted: bool) -> Seq<System> {
    if unrestricted {
        seq![System::X8664Darwin, System::X8664Linux, System::Aarch64Darwin, System::Aarch64Linux]
    } else {
        seq![System::X8664Linux, System::Aarch64Linux]
    }
}

/// `d` is the build destination of platform `s`.
pub open spec fn is_destination_for(d: (Option<String>, Option<String>), s: System) -> bool {
    &&& d.0 is None
    &&& (d.1 matches Some(q) && q@ == build_queue_name(s))
}

/// Whether the vector `v` holds a string equal to `x`.
fn contains_string(v: &Vec<String>, x: &str) -> (r: bool)
    ensures
        r == names(v@).contains(x@),
{
    let mut k: usize = 0;
    while k < v.len()
        invariant
            k <= v.len(),
            forall|m: int| 0 <= m < k ==> v@[m]@ != x@,
        decreases v.len() - k,
    {
        if str_eq(v[k].as_str(), x) {
            assert(names(v@)[k as int] == x@);
            return true;
        }
        k = k + 1;
    }
    assert(!names(v@).contains(x@)) by {
        if names(v@).contains(x@) {
            let m = choose|m: int| 0 <= m < names(v@).len() && names(v@)[m] == x@;
            assert(v@[m]@ == x@);
        }
    }
    false
}

impl Acl {
    /// An access list for `repos`; trusted user names are lowercased.
    /// `None` for the trusted users lets everybody build everywhere.
    pub fn new(repos: Vec<String>, trusted_users: Option<Vec<String>>) -> (acl: Acl)
        ensures
            acl@.repos == names(repos@),
            match trusted_users {
                Some(u) => acl@.trusted_users matches Some(t) && t == names(u@).map_values(
                    |n: Seq<char>| unicode_lowercase(n),
                ),
                None => acl@.trusted_users is None,
            },
    {
        let trusted = match trusted_users {
            Some(users) => {
                let mut lowered: Vec<String> = Vec::new();
                let mut k: usize = 0;
                while k < users.len()
                    invariant
                        k <= users.len(),
                        names(lowered@) == names(users@).take(k as int).map_values(
                            |n: Seq<char>| unicode_lowercase(n),
                        ),
                    decreases users.len() - k,
                {
                    let l = to_lowercase(users[k].as_str());
                    let ghost before = names(lowered@);
                    lowered.push(l);
                    assert(names(lowered@) =~= before.push(unicode_lowercase(users@[k as int]@)));
                    assert(names(users@).take(k + 1) =~= names(users@).take(k as int).push(
                        users@[k as int]@,
                    ));
                    assert(names(lowered@) =~= names(users@).take(k + 1).map_values(
                        |n: Seq<char>| unicode_lowercase(n),
                    ));
                    k = k + 1;
                }
                assert(names(users@).take(k as int) =~= names(users@));
                Some(lowered)
            },
            None => None,
        };
        Acl { trusted_users: trusted, repos }
    }

    /// Whether the bot serves the repository `name` (compared lowercased).
    pub fn is_repo_eligible(&self, name: &str) -> (r: bool)
        ensures
            r == self@.repos.contains(unicode_lowercase(name@)),
    {
        let lower = to_lowercase(name);
        contains_string(&self.repos, lower.as_str())
    }

    /// Whether `user` may build on every platform for `repo`: without a
    /// trusted-user list everybody may; on nixpkgs the trusted users may;
    /// elsewhere only `grahamc` may.
    pub fn can_build_unrestricted(&self, user: &str, repo: &str) -> (r: bool)
        ensures
            r == spec_can_build_unrestricted(self@, user@, repo@),
    {
        match &self.trusted_users {
            Some(users) => {
                let lower_repo = to_lowercase(repo);
                if str_eq(lower_repo.as_str(), "nixos/nixpkgs") {
                    let lower_user = to_lowercase(user);
                    contains_string(users, lower_user.as_str())
                } else {
                    str_eq(user, "grahamc")
                }
            },
            None => true,
        }
    }

    /// The platforms `user` may build on for `repo`: all four when
    /// unrestricted, otherwise the two Linux platforms.
    pub fn build_job_architectures_for_user_repo(&self, user: &str, repo: &str) -> (r: Vec<System>)
        ensures
            r@ == spec_architectures(spec_can_build_unrestricted(self@, user@, repo@)),
    {
        if self.can_build_unrestricted(user, repo) {
            vec![System::X8664Darwin, System::X8664Linux, System::Aarch64Darwin, System::Aarch64Linux]
        } else {
            vec![System::X8664Linux, System::Aarch64Linux]
        }
    }

    /// Where the build jobs of `user` for `repo` go: one destination per
    /// permitted platform, in the order of
    /// [`Acl::build_job_architectures_for_user_repo`].
    pub fn build_job_destinations_for_user_repo(&self, user: &str, repo: &str) -> (r: Vec<
        (Option<String>, Option<String>),
    >)
        ensures
            r@.len() == spec_architectures(spec_can_build_unrestricted(self@, user@, repo@)).len(),
            forall|k: int|
                0 <= k < r@.len() ==> is_destination_for(
                    #[trigger] r@[k],
                    spec_architectures(spec_can_build_unrestricted(self@, user@, repo@))[k],
                ),
    {
        let systems = self.build_job_architectures_for_user_repo(user, repo);
        let mut r: Vec<(Option<String>, Option<String>)> = Vec::new();
        let mut k: usize = 0;
        while k < systems.len()
            invariant
                k <= systems.len(),
                r@.len() == k,
                forall|m: int|
                    0 <= m < k ==> is_destination_for(#[trigger] r@[m], systems@[m]),
            decreases systems.len() - k,
        {
            r.push(systems[k].as_build_destination());
            k = k + 1;
        }
        r
    }
}

} // verus!
