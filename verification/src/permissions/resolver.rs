//! Deciding, for one tool invocation, whether the tool runs, is refused, or
//! the user is asked.
//!
//! The verdicts of the hooks come first, combined by their precedence. A
//! `Deny` refuses and an `Allow` runs the tool. Where the hooks only ask, or
//! have no opinion, the static rules count, and only where they say nothing
//! is the user asked.

use vstd::prelude::*;
use crate::hooks::types::{combine, combined, HookResult, PermissionVerdict, VerdictView};
use crate::permissions::manager::{AutoDecisions, PermissionDecision, PermissionManager};

verus! {

/// What is to be done with a tool invocation.
#[derive(Debug)]
pub enum Resolution {
    /// Run the tool.
    Execute,
    /// Do not run the tool. The reason is for the log; the model is told that
    /// permission was denied.
    Refuse(String),
    /// Ask the user, and settle the matter with the answer.
    AskUser,
}

/// The model of a [`Resolution`].
pub ghost enum ResolutionView {
    Execute,
    Refuse(Seq<char>),
    AskUser,
}

impl DeepView for Resolution {
    type V = ResolutionView;

    open spec fn deep_view(&self) -> ResolutionView {
        match self {
            Resolution::Execute => ResolutionView::Execute,
            Resolution::Refuse(reason) => ResolutionView::Refuse(reason@),
            Resolution::AskUser => ResolutionView::AskUser,
        }
    }
}

/// The reason given where the static rules refuse a tool.
pub open spec fn always_deny_reason(name: Seq<char>) -> Seq<char> {
    "Tool "@ + name + " is blocked (always deny)"@
}

/// What is to be done with an invocation of the tool `name`.
///
/// A tool that asks for no permission runs. Else the combined verdict of the
/// hooks comes first: `Deny` refuses and `Allow` runs. Where the hooks only
/// ask, or have no opinion, the call goes the normal way: the static rules
/// decide, and where they say nothing the user is asked.
pub open spec fn resolved(
    requires_permission: bool,
    verdict: VerdictView,
    rules: AutoDecisions,
    name: Seq<char>,
) -> ResolutionView {
    if !requires_permission {
        ResolutionView::Execute
    } else {
        match verdict {
            VerdictView::Deny(reason) => ResolutionView::Refuse(reason),
            VerdictView::Allow => ResolutionView::Execute,
            VerdictView::Ask | VerdictView::NoOpinion => match rules.check(name) {
                Some(true) => ResolutionView::Execute,
                Some(false) => ResolutionView::Refuse(always_deny_reason(name)),
                None => ResolutionView::AskUser,
            },
        }
    }
}

/// Decides what is to be done with one tool invocation, from the results of
/// all hooks that ran for it and the static rules.
pub fn resolve(
    requires_permission: bool,
    hook_results: &Vec<HookResult>,
    manager: &PermissionManager,
    tool_name: &str,
) -> (r: Resolution)
    ensures
        r.deep_view() == resolved(
            requires_permission,
            combined(hook_results.deep_view()),
            manager.decisions(),
            tool_name@,
        ),
{
    if !requires_permission {
        return Resolution::Execute;
    }
    match combine(hook_results) {
        PermissionVerdict::Deny(reason) => Resolution::Refuse(reason),
        PermissionVerdict::Allow => Resolution::Execute,
        PermissionVerdict::Ask | PermissionVerdict::NoOpinion => match manager.check_auto_decision(
            tool_name,
        ) {
            Some(true) => Resolution::Execute,
            Some(false) => Resolution::Refuse(
                crate::text::concat3("Tool ", tool_name, " is blocked (always deny)"),
            ),
            None => Resolution::AskUser,
        },
    }
}

/// Settles an invocation with the user's answer: the answer is recorded, and
/// the tool runs where the answer allows it.
pub fn settle(manager: &mut PermissionManager, tool_name: &str, decision: PermissionDecision) -> (r:
    bool)
    requires
        old(manager).wf(),
    ensures
        final(manager).wf(),
        final(manager).decisions() == old(manager).decisions().decide(tool_name@, decision),
        final(manager).rules_view() == old(manager).rules_view(),
        r == decision.permits(),
{
    manager.process_decision(tool_name, decision);
    decision.allows()
}

/// A `Deny` of any hook refuses the tool, whatever the other hooks, the
/// static rules and the order of registration say.
pub proof fn lemma_deny_cannot_be_overridden(
    verdicts: Seq<VerdictView>,
    rules: AutoDecisions,
    name: Seq<char>,
)
    requires
        exists|i: int| 0 <= i < verdicts.len() && (#[trigger] verdicts[i]) is Deny,
    ensures
        resolved(true, combined(verdicts), rules, name) is Refuse,
{
    crate::hooks::types::lemma_precedence(verdicts);
}

/// Where the hooks only ask or have no opinion, the static rules settle the
/// call: a tool that is always denied is refused and one that is always
/// allowed runs, and the user is not asked. Only where the rules say nothing
/// of the tool is the user asked.
pub proof fn lemma_static_rules_settle(
    verdicts: Seq<VerdictView>,
    rules: AutoDecisions,
    name: Seq<char>,
)
    requires
        forall|i: int|
            0 <= i < verdicts.len() ==> (#[trigger] verdicts[i]) is NoOpinion || verdicts[i] is Ask,
    ensures
        resolved(true, combined(verdicts), rules.deny(name), name) is Refuse,
        resolved(true, combined(verdicts), rules.allow(name), name) is Execute,
        resolved(true, combined(verdicts), rules, name) is AskUser <==> rules.check(name) is None,
        resolved(true, combined(verdicts), rules, name) is Refuse <==> rules.check(name) == Some(
            false,
        ),
        resolved(true, combined(verdicts), rules, name) is Execute <==> rules.check(name) == Some(
            true,
        ),
{
    crate::hooks::types::lemma_precedence(verdicts);
    assert forall|i: int| 0 <= i < verdicts.len() implies !((#[trigger] verdicts[i]) is Deny)
        && !(verdicts[i] is Allow) by {}
}

} // verus!
