//! The contract of a leaf of the tree.

use vstd::prelude::*;
use crate::failure::{outcome_view, Failure, FailureView};
use crate::text::texts;

verus! {

/// The unit of work at a leaf of the tree. A command is consumed by its
/// execution, so every execution takes a freshly resolved one. It sees the
/// values parsed for it and the shared state, and nothing of the tree.
pub trait Command<C, R>: Sized {
    /// What a run makes of a state, where the command declares it: the
    /// state it leaves behind and what it returns. A command that declares
    /// nothing is free in both.
    open spec fn effect(self, args: Seq<Seq<char>>, ctx: C) -> Option<(C, Result<R, Seq<char>>)> {
        None
    }

    /// Does the work. An `Err` is the command's own report of failure.
    fn run(self, args: Vec<String>, ctx: &mut C) -> (res: Result<R, String>)
        ensures
            self.effect(texts(args@), *old(ctx)) matches Some(declared) ==> (
                *final(ctx),
                report_view(res),
            ) == declared,
    ;
}

/// What a command returns, with its message, if any, as plain text.
pub open spec fn report_view<R>(report: Result<R, String>) -> Result<R, Seq<char>> {
    match report {
        Ok(value) => Ok(value),
        Err(message) => Err(message@),
    }
}

/// The outcome of an execution whose command returned `report`: the same
/// value, or a domain failure with the same message.
pub open spec fn settled<R>(report: Result<R, Seq<char>>) -> Result<R, FailureView> {
    match report {
        Ok(value) => Ok(value),
        Err(message) => Err(FailureView::Domain(message)),
    }
}

/// Turns what a command returned into the outcome of its execution. The
/// value or the message is passed on as it is.
pub fn settle<R>(report: Result<R, String>) -> (res: Result<R, Failure>)
    ensures
        outcome_view(res) == settled(report_view(report)),
{
    match report {
        Ok(value) => Ok(value),
        Err(message) => Err(Failure::Domain(message)),
    }
}

} // verus!
