//! Decisions about what the bot writes to GitHub: commit statuses, labels,
//! and which status prefix a commit already uses.

use vstd::prelude::*;
use vstd::utf8::encode_utf8;

use crate::acl::names;
use crate::text::{chars_of, copy_range, str_eq, string_from_chars, strip_prefix, strip_prefix_of};

verus! {

/// The state of a commit status.
#[derive(Debug, PartialEq, Eq, Clone, Copy)]
pub enum CommitState {
    Pending,
    Success,
    Failure,
    Error,
}

/// A commit status the bot keeps for one commit and context.
#[derive(Debug)]
pub struct CommitStatus {
    pub sha: String,
    pub context: String,
    pub description: String,
    pub url: String,
    pub enable_publish: bool,
}

/// A status to send to GitHub.
#[derive(Debug, PartialEq, Eq)]
pub struct StatusRequest {
    pub sha: String,
    pub state: CommitState,
    pub context: String,
    pub description: String,
    pub target_url: String,
}

/// The longest description GitHub is sent, in characters.
pub open spec fn max_description_chars() -> nat {
    140
}

/// The description sent for `d`: its first 140 characters when it is 140
/// bytes long or longer, otherwise all of it.
pub open spec fn sent_description(d: Seq<char>) -> Seq<char> {
    if encode_utf8(d).len() >= max_description_chars() {
        d.take(if d.len() < 140 { d.len() as int } else { 140 })
    } else {
        d
    }
}

/// The URL field for an optional URL: empty when there is none.
pub open spec fn url_text(url: Option<String>) -> Seq<char> {
    match url {
        Some(u) => u@,
        None => ""@,
    }
}

fn url_or_empty(url: Option<String>) -> (r: String)
    ensures
        r@ == url_text(url),
{
    match url {
        Some(u) => u,
        None => "".to_owned(),
    }
}

impl CommitStatus {
    /// A status for commit `sha` under `context`, published when set.
    pub fn new(sha: String, context: String, description: String, url: Option<String>) -> (s:
        CommitStatus)
        ensures
            s.sha == sha,
            s.context == context,
            s.description == description,
            s.url@ == url_text(url),
            s.enable_publish,
    {
        CommitStatus { sha, context, description, url: url_or_empty(url), enable_publish: true }
    }

    /// Turns publishing on or off.
    pub fn set_enable_publish(&mut self, enable_publish: bool)
        ensures
            final(self).enable_publish == enable_publish,
            final(self).sha == old(self).sha,
            final(self).context == old(self).context,
            final(self).description == old(self).description,
            final(self).url == old(self).url,
    {
        self.enable_publish = enable_publish;
    }

    /// Sets the link of the status; `None` clears it.
    pub fn set_url(&mut self, url: Option<String>)
        ensures
            final(self).url@ == url_text(url),
            final(self).enable_publish == old(self).enable_publish,
            final(self).sha == old(self).sha,
            final(self).context == old(self).context,
            final(self).description == old(self).description,
    {
        self.url = url_or_empty(url);
    }

    /// Sets the description of the status.
    pub fn set_description(&mut self, description: String)
        ensures
            final(self).description == description,
            final(self).enable_publish == old(self).enable_publish,
            final(self).sha == old(self).sha,
            final(self).context == old(self).context,
            final(self).url == old(self).url,
    {
        self.description = description;
    }

    /// What setting the status to `state` sends: nothing when publishing is
    /// off, otherwise the status with the description cut to 140
    /// characters when it is too long.
    pub fn set(&self, state: CommitState) -> (r: Option<StatusRequest>)
        ensures
            !self.enable_publish ==> r is None,
            self.enable_publish ==> (r matches Some(q) && q.sha == self.sha && q.state == state
                && q.context == self.context && q.description@ == sent_description(
                self.description@,
            ) && q.target_url == self.url),
    {
        if !self.enable_publish {
            return None;
        }
        let description = if self.description.as_str().as_bytes().len() >= 140 {
            let chars = chars_of(self.description.as_str());
            let n: usize = if chars.len() < 140 {
                chars.len()
            } else {
                140
            };
            let head = copy_range(&chars, 0, n);
            assert(head@ =~= self.description@.take(n as int));
            string_from_chars(head.as_slice())
        } else {
            self.description.clone()
        };
        Some(
            StatusRequest {
                sha: self.sha.clone(),
                state,
                context: self.context.clone(),
                description,
                target_url: self.url.clone(),
            },
        )
    }

    /// Sets the description, then the status to `state`.
    pub fn set_with_description(&mut self, description: &str, state: CommitState) -> (r: Option<
        StatusRequest,
    >)
        ensures
            final(self).description@ == description@,
            final(self).enable_publish == old(self).enable_publish,
            !old(self).enable_publish ==> r is None,
            old(self).enable_publish ==> (r matches Some(q) && q.sha == old(self).sha && q.state
                == state && q.context == old(self).context && q.description@ == sent_description(
                description@,
            ) && q.target_url == old(self).url),
    {
        self.set_description(description.to_owned());
        self.set(state)
    }
}

/// The labels to add and to remove on an issue.
#[derive(Debug, PartialEq, Eq)]
pub struct LabelChanges {
    pub to_add: Vec<String>,
    pub to_remove: Vec<String>,
}

/// The labels of `wanted`, in order, that `existing` lacks (`keep` false)
/// or has (`keep` true).
pub open spec fn filter_labels(wanted: Seq<Seq<char>>, existing: Seq<Seq<char>>, keep: bool) -> Seq<
    Seq<char>,
>
    decreases wanted.len(),
{
    if wanted.len() == 0 {
        seq![]
    } else {
        let rest = filter_labels(wanted.drop_last(), existing, keep);
        if existing.contains(wanted.last()) == keep {
            rest.push(wanted.last())
        } else {
            rest
        }
    }
}

fn has_label(existing: &Vec<String>, label: &str) -> (r: bool)
    ensures
        r == names(existing@).contains(label@),
{
    let mut k: usize = 0;
    while k < existing.len()
        invariant
            k <= existing.len(),
            forall|j: int| 0 <= j < k ==> existing@[j]@ != label@,
        decreases existing.len() - k,
    {
        if str_eq(existing[k].as_str(), label) {
            assert(names(existing@)[k as int] == label@);
            return true;
        }
        k = k + 1;
    }
    assert(!names(existing@).contains(label@)) by {
        if names(existing@).contains(label@) {
            let j = choose|j: int| 0 <= j < existing.len() && names(existing@)[j] == label@;
            assert(existing@[j]@ == label@);
        }
    }
    false
}

fn select_labels(wanted: &[String], existing: &Vec<String>, keep: bool) -> (r: Vec<String>)
    ensures
        names(r@) == filter_labels(names(wanted@), names(existing@), keep),
{
    let mut r: Vec<String> = Vec::new();
    let mut k: usize = 0;
    while k < wanted.len()
        invariant
            k <= wanted.len(),
            names(r@) == filter_labels(names(wanted@).take(k as int), names(existing@), keep),
        decreases wanted.len() - k,
    {
        assert(names(wanted@).take(k + 1).drop_last() =~= names(wanted@).take(k as int));
        if has_label(existing, wanted[k].as_str()) == keep {
            let ghost before = names(r@);
            r.push(wanted[k].clone());
            assert(names(r@) =~= before.push(wanted@[k as int]@));
        }
        k = k + 1;
    }
    assert(names(wanted@).take(k as int) =~= names(wanted@));
    r
}

/// The label changes on an issue with labels `existing`: the labels of
/// `add` it lacks, and the labels of `remove` it has, each in order.
pub fn label_changes(existing: &Vec<String>, add: &[String], remove: &[String]) -> (r: LabelChanges)
    ensures
        names(r.to_add@) == filter_labels(names(add@), names(existing@), false),
        names(r.to_remove@) == filter_labels(names(remove@), names(existing@), true),
{
    LabelChanges {
        to_add: select_labels(add, existing, false),
        to_remove: select_labels(remove, existing, true),
    }
}

/// What to do after reading a page of a commit's statuses.
#[derive(Debug, PartialEq, Eq)]
pub enum PrefixStep {
    /// The commit uses the given prefix.
    Found(String),
    /// Read the next page.
    NextPage,
}

/// Whether some status context of `contexts` starts with `grahamcofborg-`.
pub open spec fn has_legacy_context(contexts: Seq<Option<String>>) -> bool {
    exists|i: int|
        0 <= i < contexts.len() && (#[trigger] contexts[i] matches Some(c) && strip_prefix_of(
            c@,
            "grahamcofborg-"@,
        ) is Some)
}

/// The status prefix a commit uses, judged page by page: `grahamcofborg`
/// once a page has a context starting with `grahamcofborg-`; otherwise the
/// next page, and `ofborg` after the last one.
pub fn prefix_after_page(contexts: &Vec<Option<String>>, has_next_page: bool) -> (r: PrefixStep)
    ensures
        has_legacy_context(contexts@) ==> (r matches PrefixStep::Found(p) && p@
            == "grahamcofborg"@),
        !has_legacy_context(contexts@) && has_next_page ==> r == PrefixStep::NextPage,
        !has_legacy_context(contexts@) && !has_next_page ==> (r matches PrefixStep::Found(p) && p@
            == "ofborg"@),
{
    let mut k: usize = 0;
    while k < contexts.len()
        invariant
            k <= contexts.len(),
            forall|j: int|
                0 <= j < k ==> !(#[trigger] contexts@[j] matches Some(c) && strip_prefix_of(
                    c@,
                    "grahamcofborg-"@,
                ) is Some),
        decreases contexts.len() - k,
    {
        match &contexts[k] {
            Some(c) => {
                if strip_prefix(c.as_str(), "grahamcofborg-").is_some() {
                    return PrefixStep::Found("grahamcofborg".to_owned());
                }
            },
            None => {},
        }
        k = k + 1;
    }
    if has_next_page {
        PrefixStep::NextPage
    } else {
        PrefixStep::Found("ofborg".to_owned())
    }
}

/// A file of a gist.
#[derive(Debug, PartialEq, Eq)]
pub struct GistContent {
    pub filename: Option<String>,
    pub content: String,
}

/// A gist to create: its description, whether it is public, and its
/// files by name.
#[derive(Debug, PartialEq, Eq)]
pub struct GistRequest {
    pub description: Option<String>,
    pub public: Option<bool>,
    pub files: Vec<(String, GistContent)>,
}

/// The public gist holding one file `name` with `contents`, without a
/// description.
pub fn gist_with_content(name: &str, contents: String) -> (g: GistRequest)
    ensures
        g.description is None,
        g.public == Some(true),
        g.files.len() == 1,
        g.files@[0].0@ == name@,
        g.files@[0].1.filename matches Some(f) && f@ == name@,
        g.files@[0].1.content == contents,
{
    let mut files: Vec<(String, GistContent)> = Vec::new();
    files.push((name.to_owned(), GistContent { filename: Some(name.to_owned()), content: contents }));
    GistRequest { description: None, public: Some(true), files }
}

proof fn lemma_utf8_at_least_one_byte_per_char(d: Seq<char>)
    ensures
        encode_utf8(d).len() >= d.len(),
    decreases d.len(),
{
    if d.len() > 0 {
        lemma_utf8_at_least_one_byte_per_char(d.drop_first());
    }
}

/// The description sent to GitHub is the first 140 characters of the
/// description, or all of it when it is shorter; so it never has more than
/// 140 characters, and a description under 140 bytes is sent whole.
pub proof fn law_sent_descriptions_fit(d: Seq<char>)
    ensures
        sent_description(d) == d.take(
            if d.len() < max_description_chars() {
                d.len() as int
            } else {
                max_description_chars() as int
            },
        ),
        sent_description(d).len() <= max_description_chars(),
        encode_utf8(d).len() < max_description_chars() ==> sent_description(d) == d,
{
    lemma_utf8_at_least_one_byte_per_char(d);
    assert(d.take(d.len() as int) =~= d);
}

/// Label changes only add labels the issue lacks and only remove labels it
/// has, and keep every label asked for that needs a change.
pub proof fn law_label_changes_are_needed(
    wanted: Seq<Seq<char>>,
    existing: Seq<Seq<char>>,
    keep: bool,
    label: Seq<char>,
)
    ensures
        filter_labels(wanted, existing, keep).contains(label) <==> (wanted.contains(label)
            && existing.contains(label) == keep),
    decreases wanted.len(),
{
    if wanted.len() > 0 {
        law_label_changes_are_needed(wanted.drop_last(), existing, keep, label);
        let rest = filter_labels(wanted.drop_last(), existing, keep);
        assert(wanted =~= wanted.drop_last().push(wanted.last()));
        if wanted.contains(label) && !wanted.drop_last().contains(label) {
            assert(wanted.last() == label) by {
                let i = choose|i: int| 0 <= i < wanted.len() && wanted[i] == label;
                if i < wanted.len() - 1 {
                    assert(wanted.drop_last()[i] == label);
                }
            }
        }
        if wanted.drop_last().contains(label) {
            let i = choose|i: int| 0 <= i < wanted.drop_last().len() && wanted.drop_last()[i] == label;
            assert(wanted[i] == label);
        }
        if existing.contains(wanted.last()) == keep {
            assert(rest.push(wanted.last()).contains(label) <==> (rest.contains(label)
                || wanted.last() == label)) by {
                if rest.push(wanted.last()).contains(label) && wanted.last() != label {
                    let i = choose|i: int|
                        0 <= i < rest.push(wanted.last()).len() && rest.push(wanted.last())[i]
                            == label;
                    assert(rest[i] == label);
                }
                if rest.contains(label) {
                    let i = choose|i: int| 0 <= i < rest.len() && rest[i] == label;
                    assert(rest.push(wanted.last())[i] == label);
                }
                if wanted.last() == label {
                    assert(rest.push(wanted.last())[rest.len() as int] == label);
                }
            }
        }
    }
}

/// The installation ids of the GitHub App found so far, by repository.
#[derive(Debug)]
pub struct InstallIdCache {
    entries: Vec<(String, String, u64)>,
}

impl InstallIdCache {
    /// The id cached for repository `owner/repo`, if any.
    pub closed spec fn cached(&self, owner: Seq<char>, repo: Seq<char>) -> Option<u64> {
        cached_id(self.entries@, owner, repo)
    }

    /// Nothing cached.
    pub fn new() -> (c: InstallIdCache)
        ensures
            forall|o: Seq<char>, r: Seq<char>| #[trigger] c.cached(o, r) is None,
    {
        InstallIdCache { entries: Vec::new() }
    }

    /// The id cached for `owner/repo`; a miss means the id must be looked
    /// up.
    pub fn get(&self, owner: &str, repo: &str) -> (r: Option<u64>)
        ensures
            r == self.cached(owner@, repo@),
    {
        let mut k: usize = self.entries.len();
        assert(self.entries@.take(k as int) =~= self.entries@);
        while k > 0
            invariant
                k <= self.entries.len(),
                cached_id(self.entries@, owner@, repo@) == cached_id(
                    self.entries@.take(k as int),
                    owner@,
                    repo@,
                ),
            decreases k,
        {
            assert(self.entries@.take(k as int).drop_last() =~= self.entries@.take(k - 1));
            let e = &self.entries[k - 1];
            if str_eq(e.0.as_str(), owner) && str_eq(e.1.as_str(), repo) {
                return Some(e.2);
            }
            k = k - 1;
        }
        None
    }

    /// Remembers that `owner/repo` has installation `id`.
    pub fn insert(&mut self, owner: &str, repo: &str, id: u64)
        ensures
            final(self).cached(owner@, repo@) == Some(id),
            forall|o: Seq<char>, r: Seq<char>|
                !(o == owner@ && r == repo@) ==> #[trigger] final(self).cached(o, r) == old(
                    self,
                ).cached(o, r),
    {
        self.entries.push((owner.to_owned(), repo.to_owned(), id));
        assert(self.entries@.drop_last() =~= old(self).entries@);
    }
}

/// The id cached for `owner/repo` in `entries`: the latest entry for it.
pub open spec fn cached_id(entries: Seq<(String, String, u64)>, owner: Seq<char>, repo: Seq<char>) -> Option<u64>
    decreases entries.len(),
{
    if entries.len() == 0 {
        None
    } else if entries.last().0@ == owner && entries.last().1@ == repo {
        Some(entries.last().2)
    } else {
        cached_id(entries.drop_last(), owner, repo)
    }
}

} // verus!
