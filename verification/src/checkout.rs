//! Where repositories are cloned and checked out, and the git commands the
//! bot runs in them. Paths are strings; the commands are argument lists
//! for `git`, run by the caller.

use vstd::prelude::*;
use vstd::string::StringExecFns;
use vstd::utf8::encode_utf8;

use crate::signature::hex_encoded;
use crate::text::{
    append_u64, chars_of, lines_of, nat_decimal, split_lines, string_from_chars, to_lowercase,
    unicode_lowercase,
};

verus! {

/// `base` with `component` appended as `PathBuf::push` appends it on Unix:
/// an absolute component replaces the path, otherwise a separator is put
/// between them unless the path is empty or already ends in one.
pub open spec fn path_push(base: Seq<char>, component: Seq<char>) -> Seq<char> {
    if component.len() > 0 && component[0] == '/' {
        component
    } else if base.len() == 0 || base.last() == '/' {
        base + component
    } else {
        base + "/"@ + component
    }
}

/// Appends `component` to the path `base`, as [`path_push`] describes.
pub fn push_path(base: &mut String, component: &str)
    ensures
        final(base)@ == path_push(old(base)@, component@),
{
    let c = chars_of(component);
    if c.len() > 0 && c[0] == '/' {
        *base = component.to_owned();
        return;
    }
    let b = chars_of(base.as_str());
    if b.len() == 0 || b[b.len() - 1] == '/' {
        base.append(component);
    } else {
        base.append("/");
        base.append(component);
    }
}

/// The MD5 digest of `data`, as the `md5` crate computes it.
pub uninterp spec fn md5_digest(data: Seq<u8>) -> Seq<u8>;

/// `format!("{:x}", md5::compute(data))`: the 16 bytes of the digest, each
/// as two lowercase hexadecimal digits (the crate's `LowerHex`).
#[verifier::external_body]
fn md5_lower_hex(data: &[u8]) -> (r: String)
    ensures
        r@ == hex_encoded(md5_digest(data@)),
{
    format!("{:x}", md5::compute(data))
}

/// Clones repositories under a root directory.
#[derive(Debug)]
pub struct CachedCloner {
    pub root: String,
}

/// A cloner that keeps its clones under `path`.
pub fn cached_cloner(path: &str) -> (c: CachedCloner)
    ensures
        c.root@ == path@,
{
    CachedCloner { root: path.to_owned() }
}

/// A repository's cache: a bare clone and working checkouts under `root`.
#[derive(Debug)]
pub struct CachedProject {
    pub root: String,
    pub clone_url: String,
}

/// A working checkout `id` of a cached repository, in directory `root`,
/// cloned with the cache at `local_reference` as reference.
#[derive(Debug)]
pub struct CachedProjectCo {
    pub root: String,
    pub id: String,
    pub clone_url: String,
    pub local_reference: String,
}

/// The directory that caches the project `name` under `root`:
/// `<root>/repo/<md5 of name>`.
pub open spec fn project_root(root: Seq<char>, name: Seq<char>) -> Seq<char> {
    path_push(path_push(root, "repo"@), hex_encoded(md5_digest(encode_utf8(name))))
}

impl CachedCloner {
    /// The cache of project `name`, cloned from `clone_url`.
    pub fn project(&self, name: &str, clone_url: String) -> (p: CachedProject)
        ensures
            p.root@ == project_root(self.root@, name@),
            p.clone_url == clone_url,
    {
        let mut root = self.root.clone();
        push_path(&mut root, "repo");
        let hash = md5_lower_hex(name.as_bytes());
        push_path(&mut root, hash.as_str());
        CachedProject { root, clone_url }
    }
}

impl CachedProject {
    /// The bare clone's directory: `<root>/clone`.
    pub fn clone_to(&self) -> (r: String)
        ensures
            r@ == path_push(self.root@, "clone"@),
    {
        let mut r = self.root.clone();
        push_path(&mut r, "clone");
        r
    }

    /// The bare clone's lock file: `<root>/clone.lock`.
    pub fn lock_path(&self) -> (r: String)
        ensures
            r@ == path_push(self.root@, "clone.lock"@),
    {
        let mut r = self.root.clone();
        push_path(&mut r, "clone.lock");
        r
    }

    /// Where the repository is cloned from.
    pub fn clone_from(&self) -> (r: String)
        ensures
            r == self.clone_url,
    {
        self.clone_url.clone()
    }

    /// The extra arguments of the initial clone: a bare one.
    pub fn extra_clone_args(&self) -> (r: Vec<String>)
        ensures
            r.len() == 1,
            r@[0]@ == "--bare"@,
    {
        let mut r: Vec<String> = Vec::new();
        r.push("--bare".to_owned());
        r
    }

    /// The working checkout `id` for the use `use_category`, in
    /// `<root>/<use_category>`, referencing the bare clone. The caller has
    /// made sure the bare clone exists and is fetched.
    pub fn clone_for(&self, use_category: String, id: String) -> (co: CachedProjectCo)
        ensures
            co.root@ == path_push(self.root@, use_category@),
            co.id == id,
            co.clone_url == self.clone_url,
            co.local_reference@ == path_push(self.root@, "clone"@),
    {
        let mut root = self.root.clone();
        push_path(&mut root, use_category.as_str());
        CachedProjectCo { root, id, clone_url: self.clone_from(), local_reference: self.clone_to() }
    }
}

impl CachedProjectCo {
    /// The checkout's directory: `<root>/<id>`.
    pub fn clone_to(&self) -> (r: String)
        ensures
            r@ == path_push(self.root@, self.id@),
    {
        let mut r = self.root.clone();
        push_path(&mut r, self.id.as_str());
        r
    }

    /// The checkout's lock file: `<root>/<id>.lock`.
    pub fn lock_path(&self) -> (r: String)
        ensures
            r@ == path_push(self.root@, self.id@ + ".lock"@),
    {
        let mut name = self.id.clone();
        name.append(".lock");
        let mut r = self.root.clone();
        push_path(&mut r, name.as_str());
        r
    }

    /// Where the checkout is cloned from.
    pub fn clone_from(&self) -> (r: String)
        ensures
            r == self.clone_url,
    {
        self.clone_url.clone()
    }

    /// The extra arguments of the clone: shared with the cache as
    /// reference, when it is usable.
    pub fn extra_clone_args(&self) -> (r: Vec<String>)
        ensures
            r.len() == 3,
            r@[0]@ == "--shared"@,
            r@[1]@ == "--reference-if-able"@,
            r@[2] == self.local_reference,
    {
        let mut r: Vec<String> = Vec::new();
        r.push("--shared".to_owned());
        r.push("--reference-if-able".to_owned());
        r.push(self.local_reference.clone());
        r
    }

    /// The ref that names `git_ref` on the remote: `origin/<git_ref>`.
    pub fn origin_ref(git_ref: &str) -> (r: String)
        ensures
            r@ == "origin/"@ + git_ref@,
    {
        let mut r = "origin/".to_owned();
        r.append(git_ref);
        r
    }

    /// The git arguments that fetch pull request `pr_id` into the branch
    /// `pr`.
    pub fn fetch_pr_args(pr_id: u64) -> (r: Vec<String>)
        ensures
            r.len() == 3,
            r@[0]@ == "fetch"@,
            r@[1]@ == "origin"@,
            r@[2]@ == "+refs/pull/"@ + nat_decimal(pr_id as nat) + "/head:pr"@,
    {
        let mut spec = "+refs/pull/".to_owned();
        append_u64(&mut spec, pr_id);
        spec.append("/head:pr");
        let mut r: Vec<String> = Vec::new();
        r.push("fetch".to_owned());
        r.push("origin".to_owned());
        r.push(spec);
        r
    }

    /// The git arguments that tell whether `commit` exists.
    pub fn commit_exists_args(commit: &str) -> (r: Vec<String>)
        ensures
            r.len() == 3,
            r@[0]@ == "--no-pager"@,
            r@[1]@ == "show"@,
            r@[2]@ == commit@,
    {
        let mut r: Vec<String> = Vec::new();
        r.push("--no-pager".to_owned());
        r.push("show".to_owned());
        r.push(commit.to_owned());
        r
    }

    /// The git arguments that merge `commit` without signing, with the
    /// bot's merge message.
    pub fn merge_commit_args(commit: &str) -> (r: Vec<String>)
        ensures
            r.len() == 5,
            r@[0]@ == "merge"@,
            r@[1]@ == "--no-gpg-sign"@,
            r@[2]@ == "-m"@,
            r@[3]@ == "Automatic merge for GrahamCOfBorg"@,
            r@[4]@ == commit@,
    {
        let mut r: Vec<String> = Vec::new();
        r.push("merge".to_owned());
        r.push("--no-gpg-sign".to_owned());
        r.push("-m".to_owned());
        r.push("Automatic merge for GrahamCOfBorg".to_owned());
        r.push(commit.to_owned());
        r
    }

    /// The git arguments that list the subjects of the commits from `HEAD`
    /// to `commit`.
    pub fn commit_messages_args(commit: &str) -> (r: Vec<String>)
        ensures
            r.len() == 3,
            r@[0]@ == "log"@,
            r@[1]@ == "--format=format:%s"@,
            r@[2]@ == "HEAD.."@ + commit@,
    {
        let mut range = "HEAD..".to_owned();
        range.append(commit);
        let mut r: Vec<String> = Vec::new();
        r.push("log".to_owned());
        r.push("--format=format:%s".to_owned());
        r.push(range);
        r
    }

    /// The git arguments that list the files changed between the merge
    /// base of `HEAD` and `commit`, and `commit`.
    pub fn files_changed_args(commit: &str) -> (r: Vec<String>)
        ensures
            r.len() == 3,
            r@[0]@ == "diff"@,
            r@[1]@ == "--name-only"@,
            r@[2]@ == "HEAD..."@ + commit@,
    {
        let mut range = "HEAD...".to_owned();
        range.append(commit);
        let mut r: Vec<String> = Vec::new();
        r.push("diff".to_owned());
        r.push("--name-only".to_owned());
        r.push(range);
        r
    }
}

/// What a listing command gave: on success the lines of its output, on
/// failure its error output lowercased as the error.
pub fn listing_result(success: bool, stdout: &str, stderr: &str) -> (r: Result<Vec<String>, String>)
    ensures
        success ==> (r matches Ok(lines) && lines@.map_values(|l: String| l@) == lines_of(stdout@)),
        !success ==> (r matches Err(e) && e@ == unicode_lowercase(stderr@)),
{
    if success {
        let chars = chars_of(stdout);
        let parts = split_lines(&chars);
        let mut lines: Vec<String> = Vec::new();
        let mut k: usize = 0;
        while k < parts.len()
            invariant
                k <= parts.len(),
                lines@.map_values(|l: String| l@) == parts@.take(k as int).map_values(
                    |l: Vec<char>| l@,
                ),
            decreases parts.len() - k,
        {
            let ghost before = lines@.map_values(|l: String| l@);
            lines.push(string_from_chars(parts[k].as_slice()));
            assert(lines@.map_values(|l: String| l@) =~= before.push(parts@[k as int]@));
            assert(parts@.take(k + 1).map_values(|l: Vec<char>| l@) =~= parts@.take(
                k as int,
            ).map_values(|l: Vec<char>| l@).push(parts@[k as int]@));
            k = k + 1;
        }
        assert(parts@.take(k as int) =~= parts@);
        Ok(lines)
    } else {
        Err(to_lowercase(stderr))
    }
}

} // verus!
