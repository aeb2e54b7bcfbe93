use crate::error::ErrorView;
use crate::error::StoreError;
use crate::error::SyncHalf;
use crate::changes::texts_of;
use vstd::prelude::*;

verus! {

/// The mathematical value of one invocation of the external tool.
pub struct InvocationView {
    pub half: SyncHalf,
    pub program: Seq<char>,
    pub arguments: Seq<Seq<char>>,
}

/// One invocation of the external tool: the program and its arguments, and the
/// half of the identity that it sets.
#[derive(Debug, PartialEq, Eq)]
pub struct GitInvocation {
    pub half: SyncHalf,
    pub program: String,
    pub arguments: Vec<String>,
}

impl View for GitInvocation {
    type V = InvocationView;

    open spec fn view(&self) -> InvocationView {
        InvocationView {
            half: self.half,
            program: self.program@,
            arguments: texts_of(self.arguments@),
        }
    }
}

/// The mathematical value of a step of the synchronisation.
pub enum StepView {
    Invoke(InvocationView),
    Finished(Result<(), ErrorView>),
}

/// What the caller does next to bring an identity into the external
/// configuration: run an invocation and report how it went, or stop.
#[derive(Debug, PartialEq, Eq)]
pub enum SyncStep {
    /// Run this invocation, and ask again with its outcome added.
    Invoke(GitInvocation),
    /// Nothing is left to run: both halves were set, or one of them failed.
    Finished(Result<(), StoreError>),
}

impl View for SyncStep {
    type V = StepView;

    open spec fn view(&self) -> StepView {
        match *self {
            SyncStep::Invoke(invocation) => StepView::Invoke(invocation@),
            SyncStep::Finished(Ok(())) => StepView::Finished(Ok(())),
            SyncStep::Finished(Err(e)) => StepView::Finished(Err(e@)),
        }
    }
}

/// The configuration key that `half` sets.
pub open spec fn key_of(half: SyncHalf) -> Seq<char> {
    match half {
        SyncHalf::Name => "user.name"@,
        SyncHalf::Email => "user.email"@,
    }
}

/// The invocation that sets `half` to `value`, at global scope.
pub open spec fn invocation_of(half: SyncHalf, value: Seq<char>) -> InvocationView {
    InvocationView {
        half,
        program: "git"@,
        arguments: seq!["config"@, "--global"@, key_of(half), value],
    }
}

/// The step that follows the outcomes of the invocations run so far, each
/// `true` for an invocation that succeeded: the name is set first, the email
/// after it, and the first failure ends the synchronisation.
pub open spec fn step_after(name: Seq<char>, email: Seq<char>, outcomes: Seq<bool>) -> StepView {
    if outcomes.len() == 0 {
        StepView::Invoke(invocation_of(SyncHalf::Name, name))
    } else if !outcomes[0] {
        StepView::Finished(Err(ErrorView::SyncFailed(SyncHalf::Name)))
    } else if outcomes.len() == 1 {
        StepView::Invoke(invocation_of(SyncHalf::Email, email))
    } else if !outcomes[1] {
        StepView::Finished(Err(ErrorView::SyncFailed(SyncHalf::Email)))
    } else {
        StepView::Finished(Ok(()))
    }
}

/// The invocation that sets `half` to `value`, at global scope.
pub fn invocation(half: SyncHalf, value: &str) -> (r: GitInvocation)
    ensures
        r@ == invocation_of(half, value@),
{
    let key = match half {
        SyncHalf::Name => "user.name",
        SyncHalf::Email => "user.email",
    };
    let mut arguments: Vec<String> = Vec::new();
    arguments.push("config".to_owned());
    arguments.push("--global".to_owned());
    arguments.push(key.to_owned());
    arguments.push(value.to_owned());
    assert(texts_of(arguments@) =~= invocation_of(half, value@).arguments);
    GitInvocation { half, program: "git".to_owned(), arguments }
}

/// Brings the identity `name`, `email` into the external configuration, one
/// step at a time: answers what to do after the invocations whose `outcomes`
/// are given, in the order in which they were run.
pub fn update_git_config(name: &str, email: &str, outcomes: &Vec<bool>) -> (step: SyncStep)
    ensures
        step@ == step_after(name@, email@, outcomes@),
{
    if outcomes.len() == 0 {
        SyncStep::Invoke(invocation(SyncHalf::Name, name))
    } else if !outcomes[0] {
        SyncStep::Finished(Err(StoreError::SyncFailed(SyncHalf::Name)))
    } else if outcomes.len() == 1 {
        SyncStep::Invoke(invocation(SyncHalf::Email, email))
    } else if !outcomes[1] {
        SyncStep::Finished(Err(StoreError::SyncFailed(SyncHalf::Email)))
    } else {
        SyncStep::Finished(Ok(()))
    }
}

} // verus!
