//! The log server: which requests it serves, and how the files of a build's
//! log directory are reported.

use vstd::prelude::*;
use vstd::string::StringExecFns;

use crate::text::{chars_of, str_eq, strip_prefix, strip_prefix_of};

verus! {

/// A refusal: a status code and a body.
#[derive(Debug, PartialEq, Eq)]
pub struct LogReply {
    pub status: u16,
    pub body: String,
}

/// The log directory a request asks for: the path after `/logs/`, for a
/// `GET`. Other methods are refused with 405, other paths with 404 and
/// `invalid uri`.
pub fn requested_log_dir(is_get: bool, uri_path: &str) -> (r: Result<String, LogReply>)
    ensures
        !is_get ==> (r matches Err(e) && e.status == 405 && e.body@ == ""@),
        is_get ==> match strip_prefix_of(uri_path@, "/logs/"@) {
            Some(rest) => r matches Ok(d) && d@ == rest,
            None => r matches Err(e) && e.status == 404 && e.body@ == "invalid uri"@,
        },
{
    if !is_get {
        return Err(LogReply { status: 405, body: "".to_owned() });
    }
    match strip_prefix(uri_path, "/logs/") {
        Some(rest) => Ok(rest),
        None => Err(LogReply { status: 404, body: "invalid uri".to_owned() }),
    }
}

/// Whether the canonical path `path` lies in the canonical directory
/// `base`: it is `base` or below it, component by component.
pub open spec fn is_within(path: Seq<char>, base: Seq<char>) -> bool {
    ||| path == base
    ||| (base.len() > 0 && base.last() == '/' && strip_prefix_of(path, base) is Some)
    ||| strip_prefix_of(path, base + "/"@) is Some
}

/// Whether the canonical path `path` lies in the canonical directory
/// `base`.
pub fn path_is_within(path: &str, base: &str) -> (r: bool)
    ensures
        r == is_within(path@, base@),
{
    if str_eq(path, base) {
        return true;
    }
    let b = chars_of(base);
    if b.len() > 0 && b[b.len() - 1] == '/' && strip_prefix(path, base).is_some() {
        return true;
    }
    let mut dir = base.to_owned();
    dir.append("/");
    strip_prefix(path, dir.as_str()).is_some()
}

/// What a file of a log directory is.
#[derive(Debug, PartialEq, Eq, Clone, Copy)]
pub enum LogFileKind {
    /// `*.metadata.json`: the metadata of an attempt.
    Metadata,
    /// `*.result.json`: the result of an attempt.
    Result,
    /// Any other file: the log of an attempt named like the file.
    Log,
}

/// Whether `s` ends with `p`.
pub open spec fn ends_with(s: Seq<char>, p: Seq<char>) -> bool {
    p.len() <= s.len() && s.skip(s.len() - p.len()) == p
}

fn has_suffix(s: &str, p: &str) -> (r: bool)
    ensures
        r == ends_with(s@, p@),
{
    let sv = chars_of(s);
    let pv = chars_of(p);
    if pv.len() > sv.len() {
        return false;
    }
    let off = sv.len() - pv.len();
    let mut k: usize = 0;
    while k < pv.len()
        invariant
            sv@ == s@,
            pv@ == p@,
            off == sv.len() - pv.len(),
            k <= pv.len(),
            forall|j: int| 0 <= j < k ==> sv@[off + j] == pv@[j],
        decreases pv.len() - k,
    {
        if sv[off + k] != pv[k] {
            assert(s@.skip(off as int)[k as int] != p@[k as int]);
            return false;
        }
        k = k + 1;
    }
    assert(s@.skip(off as int) =~= p@);
    true
}

/// The kind of the file `file_name`.
pub open spec fn kind_of(file_name: Seq<char>) -> LogFileKind {
    if ends_with(file_name, ".metadata.json"@) {
        LogFileKind::Metadata
    } else if ends_with(file_name, ".result.json"@) {
        LogFileKind::Result
    } else {
        LogFileKind::Log
    }
}

/// Classifies the file `file_name` of a log directory.
pub fn classify_log_file(file_name: &str) -> (k: LogFileKind)
    ensures
        k == kind_of(file_name@),
{
    if has_suffix(file_name, ".metadata.json") {
        LogFileKind::Metadata
    } else if has_suffix(file_name, ".result.json") {
        LogFileKind::Result
    } else {
        LogFileKind::Log
    }
}

/// Where the log file `file_name` of directory `dir` is served:
/// `<serve_root>/<dir>/<file_name>`.
pub fn log_url(serve_root: &str, dir: &str, file_name: &str) -> (r: String)
    ensures
        r@ == serve_root@ + "/"@ + dir@ + "/"@ + file_name@,
{
    let mut r = serve_root.to_owned();
    r.append("/");
    r.append(dir);
    r.append("/");
    r.append(file_name);
    r
}

/// What is known of one attempt: its metadata and result documents (as
/// JSON text) and the URL of its log.
#[derive(Debug, PartialEq, Eq)]
pub struct Attempt {
    pub metadata: Option<String>,
    pub result: Option<String>,
    pub log_url: Option<String>,
}

/// The attempts of a log directory, each under its id, each id once.
#[derive(Debug)]
pub struct Attempts {
    entries: Vec<(String, Attempt)>,
}

/// What a file tells about an attempt.
pub enum AttemptFact {
    Metadata(String),
    Result(String),
    LogUrl(String),
}

/// `a` after learning `fact`.
pub open spec fn with_fact(a: Attempt, fact: AttemptFact) -> Attempt {
    match fact {
        AttemptFact::Metadata(m) => Attempt { metadata: Some(m), ..a },
        AttemptFact::Result(r) => Attempt { result: Some(r), ..a },
        AttemptFact::LogUrl(u) => Attempt { log_url: Some(u), ..a },
    }
}

/// An attempt nothing is known of yet.
pub open spec fn empty_attempt() -> Attempt {
    Attempt { metadata: None, result: None, log_url: None }
}

impl Attempts {
    /// The ids of the attempts, in the order they were first seen.
    pub closed spec fn ids(&self) -> Seq<Seq<char>> {
        self.entries@.map_values(|e: (String, Attempt)| e.0@)
    }

    /// The attempt with id number `i` of [`Attempts::ids`].
    pub closed spec fn attempt(&self, i: int) -> Attempt {
        self.entries@[i].1
    }

    /// No id twice.
    pub open spec fn wf(&self) -> bool {
        self.ids().no_duplicates()
    }

    /// No attempts.
    pub fn new() -> (a: Attempts)
        ensures
            a.wf(),
            a.ids() == Seq::<Seq<char>>::empty(),
    {
        Attempts { entries: Vec::new() }
    }

    /// Records `fact` about attempt `id`, creating the attempt when it is
    /// new.
    pub fn record(&mut self, id: &str, fact: AttemptFact)
        requires
            old(self).wf(),
        ensures
            final(self).wf(),
            old(self).ids().contains(id@) ==> final(self).ids() == old(self).ids() && forall|j: int|
                0 <= j < old(self).ids().len() ==> #[trigger] final(self).attempt(j) == (if old(
                    self,
                ).ids()[j] == id@ {
                    with_fact(old(self).attempt(j), fact)
                } else {
                    old(self).attempt(j)
                }),
            !old(self).ids().contains(id@) ==> final(self).ids() == old(self).ids().push(id@)
                && final(self).attempt(old(self).ids().len() as int) == with_fact(
                empty_attempt(),
                fact,
            ) && forall|j: int|
                0 <= j < old(self).ids().len() ==> #[trigger] final(self).attempt(j) == old(
                    self,
                ).attempt(j),
    {
        let mut k: usize = 0;
        while k < self.entries.len()
            invariant
                k <= self.entries.len(),
                self.entries@ == old(self).entries@,
                forall|j: int| 0 <= j < k ==> self.entries@[j].0@ != id@,
            ensures
                k <= self.entries.len(),
                self.entries@ == old(self).entries@,
                forall|j: int| 0 <= j < k ==> self.entries@[j].0@ != id@,
                k < self.entries.len() ==> self.entries@[k as int].0@ == id@,
            decreases self.entries.len() - k,
        {
            if str_eq(self.entries[k].0.as_str(), id) {
                break;
            }
            k = k + 1;
        }
        if k < self.entries.len() {
            let current = &self.entries[k].1;
            let updated = match fact {
                AttemptFact::Metadata(m) => Attempt {
                    metadata: Some(m),
                    result: current.result.clone(),
                    log_url: current.log_url.clone(),
                },
                AttemptFact::Result(r) => Attempt {
                    metadata: current.metadata.clone(),
                    result: Some(r),
                    log_url: current.log_url.clone(),
                },
                AttemptFact::LogUrl(u) => Attempt {
                    metadata: current.metadata.clone(),
                    result: current.result.clone(),
                    log_url: Some(u),
                },
            };
            let name = self.entries[k].0.clone();
            self.entries.set(k, (name, updated));
            proof {
                assert(self.ids() =~= old(self).ids());
                assert(old(self).ids().contains(id@)) by {
                    assert(old(self).ids()[k as int] == id@);
                }
                assert forall|j: int| 0 <= j < old(self).ids().len() && old(self).ids()[j] == id@
                    implies j == k by {
                    assert(old(self).ids()[k as int] == id@);
                }
            }
        } else {
            let attempt = match fact {
                AttemptFact::Metadata(m) => Attempt { metadata: Some(m), result: None, log_url: None },
                AttemptFact::Result(r) => Attempt { metadata: None, result: Some(r), log_url: None },
                AttemptFact::LogUrl(u) => Attempt { metadata: None, result: None, log_url: Some(u) },
            };
            self.entries.push((id.to_owned(), attempt));
            proof {
                assert(self.ids() =~= old(self).ids().push(id@));
                assert(!old(self).ids().contains(id@)) by {
                    if old(self).ids().contains(id@) {
                        let j = choose|j: int| 0 <= j < old(self).ids().len() && old(self).ids()[j] == id@;
                        assert(self.entries@[j].0@ != id@);
                    }
                }
            }
        }
    }

    /// The attempts, each with its id, in the order first seen.
    pub fn into_entries(self) -> (r: Vec<(String, Attempt)>)
        ensures
            r@.map_values(|e: (String, Attempt)| e.0@) == self.ids(),
            forall|i: int| 0 <= i < r.len() ==> #[trigger] r@[i].1 == self.attempt(i),
    {
        self.entries
    }
}

} // verus!
