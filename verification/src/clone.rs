//! The git steps of cloning, fetching, cleaning and checking out, as
//! argument lists for `git` and the decisions between them.

use vstd::prelude::*;

verus! {

fn args_of(parts: &[&str]) -> (r: Vec<String>)
    ensures
        r.len() == parts.len(),
        forall|i: int| 0 <= i < parts.len() ==> #[trigger] r@[i]@ == parts@[i]@,
{
    let mut r: Vec<String> = Vec::new();
    let mut k: usize = 0;
    while k < parts.len()
        invariant
            k <= parts.len(),
            r.len() == k,
            forall|i: int| 0 <= i < k ==> #[trigger] r@[i]@ == parts@[i]@,
        decreases parts.len() - k,
    {
        r.push(parts[k].to_owned());
        k = k + 1;
    }
    r
}

/// The arguments of the initial clone of `from` into `to`, or `None` when
/// `to` already holds the clone.
pub fn clone_repo_args(already_cloned: bool, extra: &Vec<String>, from: &str, to: &str) -> (r:
    Option<Vec<String>>)
    ensures
        already_cloned ==> r is None,
        !already_cloned ==> (r matches Some(args) && args@.map_values(|a: String| a@) == seq![
            "clone"@,
        ] + extra@.map_values(|a: String| a@) + seq![from@, to@]),
{
    if already_cloned {
        return None;
    }
    let mut args: Vec<String> = Vec::new();
    args.push("clone".to_owned());
    let mut k: usize = 0;
    while k < extra.len()
        invariant
            k <= extra.len(),
            args@.map_values(|a: String| a@) == seq!["clone"@] + extra@.take(k as int).map_values(
                |a: String| a@,
            ),
        decreases extra.len() - k,
    {
        let ghost before = args@.map_values(|a: String| a@);
        args.push(extra[k].clone());
        assert(args@.map_values(|a: String| a@) =~= before.push(extra@[k as int]@));
        assert(extra@.take(k + 1).map_values(|a: String| a@) =~= extra@.take(k as int).map_values(
            |a: String| a@,
        ).push(extra@[k as int]@));
        k = k + 1;
    }
    assert(extra@.take(k as int) =~= extra@);
    let ghost before = args@.map_values(|a: String| a@);
    args.push(from.to_owned());
    args.push(to.to_owned());
    assert(args@.map_values(|a: String| a@) =~= before.push(from@).push(to@));
    Some(args)
}

/// The arguments that fetch from `origin`.
pub fn fetch_repo_args() -> (r: Vec<String>)
    ensures
        r.len() == 2,
        r@[0]@ == "fetch"@,
        r@[1]@ == "origin"@,
{
    args_of(&["fetch", "origin"])
}

/// The three commands that clean a checkout, in order: abort a patch
/// series, abort a merge, reset hard.
pub fn clean_commands() -> (r: Vec<Vec<String>>)
    ensures
        r.len() == 3,
        r@[0]@.map_values(|a: String| a@) == seq!["am"@, "--abort"@],
        r@[1]@.map_values(|a: String| a@) == seq!["merge"@, "--abort"@],
        r@[2]@.map_values(|a: String| a@) == seq!["reset"@, "--hard"@],
{
    let mut r: Vec<Vec<String>> = Vec::new();
    let a = args_of(&["am", "--abort"]);
    assert(a@.map_values(|x: String| x@) =~= seq!["am"@, "--abort"@]);
    r.push(a);
    let b = args_of(&["merge", "--abort"]);
    assert(b@.map_values(|x: String| x@) =~= seq!["merge"@, "--abort"@]);
    r.push(b);
    let c = args_of(&["reset", "--hard"]);
    assert(c@.map_values(|x: String| x@) =~= seq!["reset"@, "--hard"@]);
    r.push(c);
    r
}

/// The arguments that check out `git_ref`.
pub fn checkout_args(git_ref: &str) -> (r: Vec<String>)
    ensures
        r.len() == 2,
        r@[0]@ == "checkout"@,
        r@[1]@ == git_ref@,
{
    let mut r: Vec<String> = Vec::new();
    r.push("checkout".to_owned());
    r.push(git_ref.to_owned());
    r
}

/// The arguments that remove untracked and ignored files, to recover a
/// checkout that failed.
pub fn clean_untracked_args() -> (r: Vec<String>)
    ensures
        r.len() == 2,
        r@[0]@ == "clean"@,
        r@[1]@ == "-dfx"@,
{
    args_of(&["clean", "-dfx"])
}

/// Which checkout attempt just ran.
#[derive(Debug, PartialEq, Eq, Clone, Copy)]
pub enum CheckoutAttempt {
    First,
    Second,
}

/// What follows a checkout attempt.
#[derive(Debug, PartialEq, Eq, Clone, Copy)]
pub enum CheckoutStep {
    /// The ref is checked out; release the lock.
    Done,
    /// Remove untracked files, then try a second time.
    CleanAndRetry,
    /// Give up: `Failed to checkout`.
    Failed,
}

/// The step after a checkout attempt: done when it worked; after a failed
/// first attempt, clean and retry once; after a failed second, give up.
pub fn after_checkout_attempt(attempt: CheckoutAttempt, succeeded: bool) -> (r: CheckoutStep)
    ensures
        succeeded ==> r == CheckoutStep::Done,
        !succeeded && attempt == CheckoutAttempt::First ==> r == CheckoutStep::CleanAndRetry,
        !succeeded && attempt == CheckoutAttempt::Second ==> r == CheckoutStep::Failed,
{
    if succeeded {
        CheckoutStep::Done
    } else {
        match attempt {
            CheckoutAttempt::First => CheckoutStep::CleanAndRetry,
            CheckoutAttempt::Second => CheckoutStep::Failed,
        }
    }
}

} // verus!
