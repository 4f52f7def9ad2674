//! Core decision logic of the ofborg continuous-integration bot.

pub mod acl;
pub mod asynccmd;
pub mod checkout;
pub mod clone;
pub mod cmdlog;
pub mod commentparser;
pub mod config;
pub mod easyamqp;
pub mod evalchecker;
pub mod events;
pub mod ghevent;
pub mod github;
pub mod grpcopts;
pub mod hydra;
pub mod ircconfig;
pub mod logapi;
pub mod maintainers;
pub mod message;
pub mod nix;
pub mod services;
pub mod signature;
pub mod systems;
pub mod testworker;
pub mod text;
pub mod tracker;
pub mod webhook;
pub mod worker;

use vstd::prelude::*;

verus! {

/// The `Ok` values of `results`, in order.
pub open spec fn ok_values<A, B>(results: Seq<Result<A, B>>) -> Seq<A>
    decreases results.len(),
{
    if results.len() == 0 {
        seq![]
    } else {
        let rest = ok_values(results.drop_last());
        match results.last() {
            Ok(a) => rest.push(a),
            Err(_) => rest,
        }
    }
}

/// The `Err` values of `results`, in order.
pub open spec fn err_values<A, B>(results: Seq<Result<A, B>>) -> Seq<B>
    decreases results.len(),
{
    if results.len() == 0 {
        seq![]
    } else {
        let rest = err_values(results.drop_last());
        match results.last() {
            Ok(_) => rest,
            Err(b) => rest.push(b),
        }
    }
}

/// Splits results into the successes and the failures, each in order.
pub fn partition_result<A, B>(results: Vec<Result<A, B>>) -> (r: (Vec<A>, Vec<B>))
    ensures
        r.0@ == ok_values(results@),
        r.1@ == err_values(results@),
{
    let ghost all = results@;
    let mut ok: Vec<A> = Vec::new();
    let mut err: Vec<B> = Vec::new();
    for result in it: results
        invariant
            it.seq() == all,
            ok@ == ok_values(all.take(it.index() as int)),
            err@ == err_values(all.take(it.index() as int)),
    {
        let ghost k = it.index();
        assert(all.take(k + 1).drop_last() =~= all.take(k as int));
        match result {
            Ok(x) => {
                ok.push(x);
            },
            Err(x) => {
                err.push(x);
            },
        }
    }
    assert(all.take(all.len() as int) =~= all);
    (ok, err)
}

/// Every result lands on exactly one side.
pub proof fn law_partition_keeps_every_result<A, B>(results: Seq<Result<A, B>>)
    ensures
        ok_values(results).len() + err_values(results).len() == results.len(),
    decreases results.len(),
{
    if results.len() > 0 {
        law_partition_keeps_every_result(results.drop_last());
    }
}

} // verus!
