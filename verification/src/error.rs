//! The error of every fallible step: a message and the contexts that callers
//! wrapped around it.

use vstd::prelude::*;

use crate::text::views;

verus! {

/// A failure: the root message and the contexts added around it, innermost
/// first. What a user sees first is the outermost context, or the message
/// when there is none.
#[derive(Debug)]
pub struct DeployError {
    pub message: String,
    pub context: Vec<String>,
}

/// `outer` is `inner` with one more context around it.
pub open spec fn wrapped(outer: DeployError, inner: DeployError, context: Seq<char>) -> bool {
    outer.message@ == inner.message@ && outer.contexts() == inner.contexts().push(context)
}

impl DeployError {
    /// The contexts, innermost first.
    pub open spec fn contexts(&self) -> Seq<Seq<char>> {
        views(self.context@)
    }

    /// An error with the given message and no context.
    pub fn new(message: String) -> (res: DeployError)
        ensures
            res.message@ == message@,
            res.context@.len() == 0,
    {
        DeployError { message, context: Vec::new() }
    }

    /// The error wrapped in one more context (`anyhow::Context`).
    pub fn with_context(self, context: String) -> (res: DeployError)
        ensures
            res.message@ == self.message@,
            res.context@ == self.context@.push(context),
            wrapped(res, self, context@),
    {
        let mut res = self;
        res.context.push(context);
        assert(res.contexts() =~= self.contexts().push(res.context@.last()@));
        res
    }
    /// What is shown of the error on one line: its outermost context, or
    /// the message when there is none.
    pub open spec fn headline_text(&self) -> Seq<char> {
        if self.context@.len() == 0 {
            self.message@
        } else {
            self.context@.last()@
        }
    }

    /// The error's one-line form.
    pub fn headline(&self) -> (res: String)
        ensures
            res@ == self.headline_text(),
    {
        if self.context.len() == 0 {
            self.message.clone()
        } else {
            self.context[self.context.len() - 1].clone()
        }
    }
}

} // verus!
