//! The parts of GitHub webhook payloads the bot reads.

use vstd::prelude::*;
use vstd::string::StringExecFns;

use crate::text::{chars_of, copy_range, string_from_chars};

verus! {

/// A comment and its author.
#[derive(Debug)]
pub struct Comment {
    pub body: String,
    pub user: User,
}

/// A GitHub account.
#[derive(Debug)]
pub struct User {
    pub login: String,
}

/// A repository as webhooks describe it.
#[derive(Debug)]
pub struct Repository {
    pub owner: User,
    pub name: String,
    pub full_name: String,
    pub clone_url: String,
}

/// An issue, or a pull request seen as an issue.
#[derive(Debug)]
pub struct Issue {
    pub number: u64,
}

/// Any webhook: only the repository it came from is read.
#[derive(Debug)]
pub struct GenericWebhook {
    pub repository: Repository,
}

/// A comment on an issue or pull request was created, edited or deleted.
#[derive(Debug)]
pub struct IssueComment {
    pub action: IssueCommentAction,
    pub comment: Comment,
    pub repository: Repository,
    pub issue: Issue,
}

/// What happened to a comment.
#[derive(Debug, PartialEq, Eq, Clone, Copy)]
pub enum IssueCommentAction {
    Created,
    Edited,
    Deleted,
}

/// Something happened to a pull request.
pub struct PullRequestEvent {
    pub action: PullRequestAction,
    pub number: u64,
    pub repository: Repository,
    pub pull_request: PullRequest,
    pub changes: Option<PullRequestChanges>,
}

/// What an edit of a pull request changed.
#[derive(Debug)]
pub struct PullRequestChanges {
    pub base: Option<BaseChange>,
}

/// The base branch of a pull request changed from `git_ref` at `sha`.
#[derive(Debug)]
pub struct BaseChange {
    pub git_ref: ChangeWas,
    pub sha: ChangeWas,
}

/// The value a field had before a change.
#[derive(Debug, PartialEq, Eq)]
pub struct ChangeWas {
    pub from: String,
}

/// Whether a pull request is open.
#[derive(Debug, PartialEq, Eq, Clone, Copy)]
pub enum PullRequestState {
    Open,
    Closed,
}

/// What happened to a pull request; actions the bot does not handle are
/// `Unknown`.
#[derive(Debug, PartialEq, Eq, Clone, Copy)]
pub enum PullRequestAction {
    Edited,
    Opened,
    Reopened,
    Synchronize,
    Unknown,
}

/// A branch and the commit it points to.
#[derive(Debug)]
pub struct PullRequestRef {
    pub git_ref: String,
    pub sha: String,
}

/// A pull request: its state, its base and its head.
#[derive(Debug)]
pub struct PullRequest {
    pub state: PullRequestState,
    pub base: PullRequestRef,
    pub head: PullRequestRef,
}

/// The position of the first `c` in `s`, if there is one.
pub open spec fn first_index_of(s: Seq<char>, c: char) -> Option<int> {
    if exists|i: int| 0 <= i < s.len() && s[i] == c {
        Some(choose|i: int| 0 <= i < s.len() && s[i] == c && forall|j: int| 0 <= j < i ==> s[j] != c)
    } else {
        None
    }
}

/// `s` split around its first `c`, as `str::split_once` splits it.
pub open spec fn split_once_at(s: Seq<char>, c: char) -> Option<(Seq<char>, Seq<char>)> {
    match first_index_of(s, c) {
        Some(i) => Some((s.take(i), s.skip(i + 1))),
        None => None,
    }
}

/// Splits `s` around its first `c`.
pub fn split_once(s: &str, c: char) -> (r: Option<(String, String)>)
    ensures
        match split_once_at(s@, c) {
            Some((a, b)) => r matches Some(p) && p.0@ == a && p.1@ == b,
            None => r is None,
        },
{
    let v = chars_of(s);
    let mut i: usize = 0;
    while i < v.len()
        invariant
            i <= v.len(),
            v@ == s@,
            forall|j: int| 0 <= j < i ==> v@[j] != c,
        decreases v.len() - i,
    {
        if v[i] == c {
            proof {
                let k = choose|k: int|
                    0 <= k < s@.len() && s@[k] == c && forall|j: int| 0 <= j < k ==> s@[j] != c;
                assert(k == i) by {
                    if k < i {
                        assert(v@[k] != c);
                    }
                    if k > i {
                        assert(s@[i as int] != c);
                    }
                }
            }
            let head = copy_range(&v, 0, i);
            let tail = copy_range(&v, i + 1, v.len());
            let a = string_from_chars(head.as_slice());
            let b = string_from_chars(tail.as_slice());
            assert(head@ =~= s@.take(i as int));
            assert(tail@ =~= s@.skip(i + 1));
            return Some((a, b));
        }
        i = i + 1;
    }
    None
}

/// The `owner/name` form of a repository's full name.
pub open spec fn full_repo_name(owner: Seq<char>, name: Seq<char>) -> Seq<char> {
    owner + "/"@ + name
}

/// The clone URL of a GitHub repository.
pub open spec fn github_clone_url(owner: Seq<char>, name: Seq<char>) -> Seq<char> {
    "https://github.com/"@ + owner + "/"@ + name + ".git"@
}

/// Splits a full repository name `owner/name` at its first `/`; `None`
/// when there is no `/`.
pub fn split_repo_name(full_name: &str) -> (r: Option<(String, String)>)
    ensures
        match split_once_at(full_name@, '/') {
            Some((a, b)) => r matches Some(p) && p.0@ == a && p.1@ == b,
            None => r is None,
        },
{
    split_once(full_name, '/')
}

proof fn lemma_first_occurrence(s: Seq<char>, c: char, k: int)
    requires
        0 <= k < s.len(),
        s[k] == c,
    ensures
        exists|i: int| 0 <= i < s.len() && s[i] == c && forall|j: int| 0 <= j < i ==> s[j] != c,
    decreases k,
{
    if exists|j: int| 0 <= j < k && s[j] == c {
        let j = choose|j: int| 0 <= j < k && s[j] == c;
        lemma_first_occurrence(s, c, j);
    } else {
        assert(0 <= k < s.len() && s[k] == c && forall|j: int| 0 <= j < k ==> s[j] != c);
    }
}

/// Splitting a full repository name at its first `/` gives an owner
/// without `/` and a name that join back into the full name; a full name
/// that does not split holds no `/`. So the event built from the two parts
/// names the repository that was asked for.
pub proof fn law_split_repo_name_rebuilds_the_full_name(full_name: Seq<char>)
    ensures
        match split_once_at(full_name, '/') {
            Some((owner, name)) => full_repo_name(owner, name) == full_name && !owner.contains(
                '/',
            ),
            None => !full_name.contains('/'),
        },
{
    reveal_strlit("/");
    if let Some((owner, name)) = split_once_at(full_name, '/') {
        let k = choose|k: int| 0 <= k < full_name.len() && full_name[k] == '/';
        lemma_first_occurrence(full_name, '/', k);
        let i = first_index_of(full_name, '/')->0;
        assert(0 <= i < full_name.len() && full_name[i] == '/');
        assert(full_repo_name(owner, name) =~= full_name);
        if owner.contains('/') {
            let j = choose|j: int| 0 <= j < owner.len() && owner[j] == '/';
            assert(full_name[j] == '/');
        }
    } else {
        if full_name.contains('/') {
            let j = choose|j: int| 0 <= j < full_name.len() && full_name[j] == '/';
            assert(full_name[j] == '/');
        }
    }
}

/// The event announcing that pull request `number` of `owner/name` was
/// opened, with the given base and head.
pub fn opened_pull_request_event(
    owner: &str,
    name: &str,
    number: u64,
    base: PullRequestRef,
    head: PullRequestRef,
) -> (e: PullRequestEvent)
    ensures
        e.action == PullRequestAction::Opened,
        e.number == number,
        e.repository.owner.login@ == owner@,
        e.repository.name@ == name@,
        e.repository.full_name@ == full_repo_name(owner@, name@),
        e.repository.clone_url@ == github_clone_url(owner@, name@),
        e.pull_request.state == PullRequestState::Open,
        e.pull_request.base == base,
        e.pull_request.head == head,
        e.changes is None,
{
    let mut full_name = owner.to_owned();
    full_name.append("/");
    full_name.append(name);
    let mut clone_url = "https://github.com/".to_owned();
    clone_url.append(owner);
    clone_url.append("/");
    clone_url.append(name);
    clone_url.append(".git");
    PullRequestEvent {
        action: PullRequestAction::Opened,
        number,
        repository: Repository {
            owner: User { login: owner.to_owned() },
            name: name.to_owned(),
            full_name,
            clone_url,
        },
        pull_request: PullRequest { state: PullRequestState::Open, base, head },
        changes: None,
    }
}

} // verus!
