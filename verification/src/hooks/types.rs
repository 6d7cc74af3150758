//! What a hook can say about an event, and how the answers of several hooks
//! combine.

use vstd::prelude::*;

verus! {

/// The points of a turn at which hooks run.
#[derive(Clone, Copy, Debug, PartialEq, Eq, Structural)]
pub enum HookEvent {
    PreToolUse,
    PostToolUse,
    PostToolUseFailure,
    UserPromptSubmit,
    PostAssistantResponse,
}

/// A verdict on one tool invocation.
#[derive(Debug)]
pub enum PermissionVerdict {
    /// Run the tool without asking.
    Allow,
    /// Refuse the tool, for the reason given.
    Deny(String),
    /// Neither run nor refuse the tool: let the normal permission flow
    /// decide, the static rules first and then the user.
    Ask,
    /// No opinion.
    NoOpinion,
}

/// The model of a [`PermissionVerdict`].
pub ghost enum VerdictView {
    Allow,
    Deny(Seq<char>),
    Ask,
    NoOpinion,
}

impl VerdictView {
    /// How strong the verdict is, from 0 (no opinion) over `Ask` and `Allow`
    /// to 3 (`Deny`).
    pub open spec fn rank(self) -> nat {
        match self {
            VerdictView::Deny(_) => 3,
            VerdictView::Allow => 2,
            VerdictView::Ask => 1,
            VerdictView::NoOpinion => 0,
        }
    }

    /// The stronger of two verdicts; of two equally strong ones, the first.
    pub open spec fn or_stronger(self, other: VerdictView) -> VerdictView {
        if other.rank() > self.rank() {
            other
        } else {
            self
        }
    }
}

impl DeepView for PermissionVerdict {
    type V = VerdictView;

    open spec fn deep_view(&self) -> VerdictView {
        match self {
            PermissionVerdict::Allow => VerdictView::Allow,
            PermissionVerdict::Deny(reason) => VerdictView::Deny(reason@),
            PermissionVerdict::Ask => VerdictView::Ask,
            PermissionVerdict::NoOpinion => VerdictView::NoOpinion,
        }
    }
}

impl Clone for PermissionVerdict {
    fn clone(&self) -> (r: Self)
        ensures
            r.deep_view() == self.deep_view(),
    {
        match self {
            PermissionVerdict::Allow => PermissionVerdict::Allow,
            PermissionVerdict::Deny(reason) => PermissionVerdict::Deny(reason.clone()),
            PermissionVerdict::Ask => PermissionVerdict::Ask,
            PermissionVerdict::NoOpinion => PermissionVerdict::NoOpinion,
        }
    }
}

impl PermissionVerdict {
    /// The strength of the verdict, from 0 (no opinion) to 3 (`Deny`).
    pub fn rank(&self) -> (r: u8)
        ensures
            r == self.deep_view().rank(),
    {
        match self {
            PermissionVerdict::Deny(_) => 3,
            PermissionVerdict::Allow => 2,
            PermissionVerdict::Ask => 1,
            PermissionVerdict::NoOpinion => 0,
        }
    }
}

/// What one hook returns.
#[derive(Debug)]
pub struct HookResult {
    pub verdict: PermissionVerdict,
}

impl DeepView for HookResult {
    type V = VerdictView;

    open spec fn deep_view(&self) -> VerdictView {
        self.verdict.deep_view()
    }
}

impl HookResult {
    /// No opinion: the call goes on as if the hook were not there.
    pub fn none() -> (r: HookResult)
        ensures
            r.deep_view() == VerdictView::NoOpinion,
    {
        HookResult { verdict: PermissionVerdict::NoOpinion }
    }

    /// Run the tool without asking.
    pub fn allow() -> (r: HookResult)
        ensures
            r.deep_view() == VerdictView::Allow,
    {
        HookResult { verdict: PermissionVerdict::Allow }
    }

    /// Refuse the tool.
    pub fn deny(reason: &str) -> (r: HookResult)
        ensures
            r.deep_view() == VerdictView::Deny(reason@),
    {
        HookResult { verdict: PermissionVerdict::Deny(reason.to_string()) }
    }

    /// Leave the call to the normal permission flow.
    pub fn ask() -> (r: HookResult)
        ensures
            r.deep_view() == VerdictView::Ask,
    {
        HookResult { verdict: PermissionVerdict::Ask }
    }
}

/// The verdicts folded from the left with [`VerdictView::or_stronger`],
/// starting from no opinion.
pub open spec fn combined(verdicts: Seq<VerdictView>) -> VerdictView
    decreases verdicts.len(),
{
    if verdicts.len() == 0 {
        VerdictView::NoOpinion
    } else {
        combined(verdicts.drop_last()).or_stronger(verdicts.last())
    }
}

/// The strongest rank among the verdicts; 0 where there is none.
pub open spec fn strongest_rank(verdicts: Seq<VerdictView>) -> nat
    decreases verdicts.len(),
{
    if verdicts.len() == 0 {
        0
    } else {
        let rest = strongest_rank(verdicts.drop_last());
        if verdicts.last().rank() > rest {
            verdicts.last().rank()
        } else {
            rest
        }
    }
}

/// Combines the verdicts of all hooks that ran for one event: any `Deny`
/// wins, else any `Allow`, else any `Ask`, else there is no opinion. Of several
/// `Deny` verdicts the one registered first gives the reason.
pub fn combine(results: &Vec<HookResult>) -> (r: PermissionVerdict)
    ensures
        r.deep_view() == combined(results.deep_view()),
{
    let mut best = PermissionVerdict::NoOpinion;
    let mut i: usize = 0;
    while i < results.len()
        invariant
            0 <= i <= results.len(),
            best.deep_view() == combined(results.deep_view().take(i as int)),
        decreases results.len() - i,
    {
        proof {
            let next = results.deep_view().take(i + 1);
            assert(next.drop_last() =~= results.deep_view().take(i as int));
            assert(next.last() == results[i as int].deep_view());
        }
        if results[i].verdict.rank() > best.rank() {
            best = results[i].verdict.clone();
        }
        i += 1;
    }
    proof {
        assert(results.deep_view().take(results.len() as int) =~= results.deep_view());
    }
    best
}

/// The combined verdict is as strong as the strongest verdict given.
pub proof fn lemma_combined_rank(verdicts: Seq<VerdictView>)
    ensures
        combined(verdicts).rank() == strongest_rank(verdicts),
    decreases verdicts.len(),
{
    if verdicts.len() > 0 {
        lemma_combined_rank(verdicts.drop_last());
    }
}

/// The strongest rank is the rank of one of the verdicts, and none is
/// stronger.
pub proof fn lemma_strongest_rank_bounds(verdicts: Seq<VerdictView>)
    ensures
        forall|i: int| 0 <= i < verdicts.len() ==> (#[trigger] verdicts[i]).rank() <= strongest_rank(
            verdicts,
        ),
        verdicts.len() > 0 ==> exists|i: int|
            0 <= i < verdicts.len() && (#[trigger] verdicts[i]).rank() == strongest_rank(verdicts),
        verdicts.len() == 0 ==> strongest_rank(verdicts) == 0,
    decreases verdicts.len(),
{
    if verdicts.len() > 0 {
        let rest = verdicts.drop_last();
        lemma_strongest_rank_bounds(rest);
        let last = verdicts.len() - 1;
        assert forall|i: int| 0 <= i < verdicts.len() implies (#[trigger] verdicts[i]).rank()
            <= strongest_rank(verdicts) by {
            if i < last {
                assert(rest[i] == verdicts[i]);
            }
        }
        if verdicts.last().rank() > strongest_rank(rest) || rest.len() == 0 {
            assert(verdicts[last].rank() == strongest_rank(verdicts));
        } else {
            let j = choose|j: int| 0 <= j < rest.len() && (#[trigger] rest[j]).rank() == strongest_rank(rest);
            assert(verdicts[j] == rest[j]);
            assert(verdicts[j].rank() == strongest_rank(verdicts));
        }
    }
}

/// Precedence: where any hook denies, the combined verdict is `Deny`; else
/// where any allows, it is `Allow`; else where any asks, it is `Ask`; else
/// there is no opinion. The position of a verdict among the others plays no
/// part in this.
pub proof fn lemma_precedence(verdicts: Seq<VerdictView>)
    ensures
        (combined(verdicts) is Deny) <==> (exists|i: int|
            0 <= i < verdicts.len() && (#[trigger] verdicts[i]) is Deny),
        (combined(verdicts) is Allow) <==> (exists|i: int|
            0 <= i < verdicts.len() && (#[trigger] verdicts[i]) is Allow) && !(exists|i: int|
            0 <= i < verdicts.len() && (#[trigger] verdicts[i]) is Deny),
        (combined(verdicts) is Ask) <==> (exists|i: int|
            0 <= i < verdicts.len() && (#[trigger] verdicts[i]) is Ask) && !(exists|i: int|
            0 <= i < verdicts.len() && ((#[trigger] verdicts[i]) is Deny || verdicts[i] is Allow)),
        (combined(verdicts) is NoOpinion) <==> (forall|i: int|
            0 <= i < verdicts.len() ==> (#[trigger] verdicts[i]) is NoOpinion),
{
    lemma_combined_rank(verdicts);
    lemma_strongest_rank_bounds(verdicts);
    let top = strongest_rank(verdicts);
    if verdicts.len() > 0 {
        let j = choose|j: int| 0 <= j < verdicts.len() && (#[trigger] verdicts[j]).rank() == top;
        assert(verdicts[j].rank() == top);
    }
    assert forall|i: int| 0 <= i < verdicts.len() implies (#[trigger] verdicts[i]).rank() <= top by {}
}

/// Order plays no part: two lists that hold the same verdicts, each as often
/// in one as in the other, combine to verdicts of the same strength.
pub proof fn lemma_combine_any_order(a: Seq<VerdictView>, b: Seq<VerdictView>)
    requires
        a.to_multiset() == b.to_multiset(),
    ensures
        combined(a).rank() == combined(b).rank(),
{
    lemma_combined_rank(a);
    lemma_combined_rank(b);
    lemma_strongest_rank_bounds(a);
    lemma_strongest_rank_bounds(b);
    a.to_multiset_ensures();
    b.to_multiset_ensures();
    if a.len() > 0 {
        let i = choose|i: int| 0 <= i < a.len() && (#[trigger] a[i]).rank() == strongest_rank(a);
        assert(a.contains(a[i]));
        assert(a.to_multiset().count(a[i]) > 0);
        assert(b.contains(a[i]));
        let j = choose|j: int| 0 <= j < b.len() && b[j] == a[i];
        assert(b[j].rank() <= strongest_rank(b));
    }
    if b.len() > 0 {
        let i = choose|i: int| 0 <= i < b.len() && (#[trigger] b[i]).rank() == strongest_rank(b);
        assert(b.contains(b[i]));
        assert(b.to_multiset().count(b[i]) > 0);
        assert(a.contains(b[i]));
        let j = choose|j: int| 0 <= j < a.len() && a[j] == b[i];
        assert(a[j].rank() <= strongest_rank(a));
    }
}

} // verus!
