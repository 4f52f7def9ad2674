//! A named evaluation check: a Nix operation with its arguments.

use vstd::prelude::*;
use vstd::string::StringExecFns;

use crate::nix::{operation_command, Nix, Operation};
use crate::text::{join, joined};

verus! {

/// A check that runs one Nix operation with fixed arguments.
pub struct EvalChecker {
    name: String,
    op: Operation,
    args: Vec<String>,
    nix: Nix,
}

impl EvalChecker {
    pub fn new(name: &str, op: Operation, args: Vec<String>, nix: Nix) -> (c: EvalChecker)
        ensures
            c.spec_name() == name@,
            c.spec_op() == op,
            c.spec_args() == args@.map_values(|t: String| t@),
            c.spec_nix() == nix,
    {
        EvalChecker { name: name.to_owned(), op, args, nix }
    }

    pub closed spec fn spec_name(&self) -> Seq<char> {
        self.name@
    }

    pub closed spec fn spec_op(&self) -> Operation {
        self.op
    }

    pub closed spec fn spec_nix(&self) -> Nix {
        self.nix
    }

    pub closed spec fn spec_args(&self) -> Seq<Seq<char>> {
        self.args@.map_values(|t: String| t@)
    }

    /// The status context of the check: `grahamcofborg-eval-<name>`.
    pub fn name(&self) -> (r: String)
        ensures
            r@ == "grahamcofborg-eval-"@ + self.spec_name(),
    {
        let mut r = "grahamcofborg-eval-".to_owned();
        r.append(self.name.as_str());
        r
    }

    /// The command line of the check, the program followed by the arguments,
    /// separated by single spaces.
    pub fn cli_cmd(&self) -> (r: String)
        ensures
            r@ == joined(seq![operation_command(self.spec_op())] + self.spec_args(), " "@),
    {
        let mut cli: Vec<String> = Vec::new();
        cli.push(self.op.command());
        let mut k: usize = 0;
        while k < self.args.len()
            invariant
                k <= self.args.len(),
                cli@.map_values(|t: String| t@) == seq![operation_command(self.op)]
                    + self.args@.map_values(|t: String| t@).take(k as int),
            decreases self.args.len() - k,
        {
            let ghost before = cli@.map_values(|t: String| t@);
            cli.push(self.args[k].clone());
            assert(cli@.map_values(|t: String| t@) =~= before.push(self.args@[k as int]@));
            assert(self.args@.map_values(|t: String| t@).take(k + 1) =~= self.args@.map_values(
                |t: String| t@,
            ).take(k as int).push(self.args@[k as int]@));
            k = k + 1;
        }
        assert(self.args@.map_values(|t: String| t@).take(k as int) =~= self.args@.map_values(
            |t: String| t@,
        ));
        join(&cli, " ")
    }

    /// The Nix settings the check runs with.
    pub fn nix(&self) -> (r: &Nix)
        ensures
            *r == self.spec_nix(),
    {
        &self.nix
    }

    /// The operation the check runs.
    pub fn op(&self) -> (r: &Operation)
        ensures
            *r == self.spec_op(),
    {
        &self.op
    }

    /// The arguments of the operation.
    pub fn args(&self) -> (r: &Vec<String>)
        ensures
            r@.map_values(|t: String| t@) == self.spec_args(),
    {
        &self.args
    }
}

} // verus!
