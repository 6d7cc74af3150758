//! The static permission rules: tools that are always allowed or always
//! denied, and what a user's decision does to them.

use vstd::prelude::*;
use crate::text::str_eq;

verus! {

/// A request for permission to execute a tool, as it is shown to the user.
#[derive(Debug)]
pub struct PermissionRequest {
    /// Name of the tool.
    pub tool_name: String,
    /// Human-readable description of the action.
    pub action_description: String,
    /// Optional details about the action.
    pub details: Option<String>,
}

/// The model of a [`PermissionRequest`].
pub ghost struct PermissionRequestView {
    pub tool_name: Seq<char>,
    pub action_description: Seq<char>,
    pub details: Option<Seq<char>>,
}

impl DeepView for PermissionRequest {
    type V = PermissionRequestView;

    open spec fn deep_view(&self) -> PermissionRequestView {
        PermissionRequestView {
            tool_name: self.tool_name@,
            action_description: self.action_description@,
            details: self.details.deep_view(),
        }
    }
}

impl Clone for PermissionRequest {
    fn clone(&self) -> (r: Self)
        ensures
            r.deep_view() == self.deep_view(),
    {
        PermissionRequest {
            tool_name: self.tool_name.clone(),
            action_description: self.action_description.clone(),
            details: match &self.details {
                Some(d) => Some(d.clone()),
                None => None,
            },
        }
    }
}

impl PermissionRequest {
    /// A request without details.
    pub fn new(tool_name: &str, action_description: &str) -> (r: PermissionRequest)
        ensures
            r.deep_view() == (PermissionRequestView {
                tool_name: tool_name@,
                action_description: action_description@,
                details: None,
            }),
    {
        PermissionRequest {
            tool_name: tool_name.to_string(),
            action_description: action_description.to_string(),
            details: None,
        }
    }

    /// The same request with the details given.
    pub fn with_details(self, details: &str) -> (r: PermissionRequest)
        ensures
            r.deep_view() == (PermissionRequestView {
                details: Some(details@),
                ..self.deep_view()
            }),
    {
        let mut request = self;
        request.details = Some(details.to_string());
        request
    }
}

/// The user's decision on a permission request.
#[derive(Debug, Clone, Copy, PartialEq, Eq, Structural)]
pub enum PermissionDecision {
    /// Allow this action.
    Allow,
    /// Deny this action.
    Deny,
    /// Always allow this tool.
    AlwaysAllow,
    /// Always deny this tool.
    AlwaysDeny,
}

impl PermissionDecision {
    /// Whether the decision lets this one action run.
    pub open spec fn permits(self) -> bool {
        self == PermissionDecision::Allow || self == PermissionDecision::AlwaysAllow
    }

    /// Whether the decision lets this one action run.
    pub fn allows(&self) -> (r: bool)
        ensures
            r == self.permits(),
    {
        match self {
            PermissionDecision::Allow | PermissionDecision::AlwaysAllow => true,
            PermissionDecision::Deny | PermissionDecision::AlwaysDeny => false,
        }
    }
}

/// A permission rule for one tool.
#[derive(Debug)]
pub struct Permission {
    /// Tool name, matched exactly.
    pub tool_name: String,
    /// Whether to allow or deny.
    pub allow: bool,
}

/// The model of a [`Permission`].
pub ghost struct PermissionView {
    pub tool_name: Seq<char>,
    pub allow: bool,
}

impl DeepView for Permission {
    type V = PermissionView;

    open spec fn deep_view(&self) -> PermissionView {
        PermissionView { tool_name: self.tool_name@, allow: self.allow }
    }
}

impl Clone for Permission {
    fn clone(&self) -> (r: Self)
        ensures
            r.deep_view() == self.deep_view(),
    {
        Permission { tool_name: self.tool_name.clone(), allow: self.allow }
    }
}

impl Permission {
    /// A rule for the tool `tool_name`.
    pub fn new(tool_name: &str, allow: bool) -> (r: Permission)
        ensures
            r.deep_view() == (PermissionView { tool_name: tool_name@, allow }),
    {
        Permission { tool_name: tool_name.to_string(), allow }
    }
}

/// The state of the static rules: two sets of tool names.
pub ghost struct AutoDecisions {
    pub allowed: Set<Seq<char>>,
    pub denied: Set<Seq<char>>,
}

impl AutoDecisions {
    /// No tool is always allowed or always denied.
    pub open spec fn empty() -> AutoDecisions {
        AutoDecisions { allowed: Set::empty(), denied: Set::empty() }
    }

    /// The rules after `name` was set to always allowed.
    pub open spec fn allow(self, name: Seq<char>) -> AutoDecisions {
        AutoDecisions { allowed: self.allowed.insert(name), denied: self.denied.remove(name) }
    }

    /// The rules after `name` was set to always denied.
    pub open spec fn deny(self, name: Seq<char>) -> AutoDecisions {
        AutoDecisions { allowed: self.allowed.remove(name), denied: self.denied.insert(name) }
    }

    /// The automatic decision for `name`: `Some(true)` to allow, `Some(false)`
    /// to deny, `None` where the user must be asked.
    pub open spec fn check(self, name: Seq<char>) -> Option<bool> {
        if self.allowed.contains(name) {
            Some(true)
        } else if self.denied.contains(name) {
            Some(false)
        } else {
            None
        }
    }

    /// The rules after the user decided `decision` for `name`: the two
    /// "always" decisions are kept, the others change nothing.
    pub open spec fn decide(self, name: Seq<char>, decision: PermissionDecision) -> AutoDecisions {
        match decision {
            PermissionDecision::AlwaysAllow => self.allow(name),
            PermissionDecision::AlwaysDeny => self.deny(name),
            _ => self,
        }
    }

    /// The rules after a run of decisions, each for the tool named with it.
    pub open spec fn decide_all(
        self,
        decisions: Seq<(Seq<char>, PermissionDecision)>,
    ) -> AutoDecisions
        decreases decisions.len(),
    {
        if decisions.len() == 0 {
            self
        } else {
            self.decide_all(decisions.drop_last()).decide(decisions.last().0, decisions.last().1)
        }
    }
}

/// The names of `names` that differ from `name`, in their order.
pub open spec fn without(names: Seq<Seq<char>>, name: Seq<char>) -> Seq<Seq<char>>
    decreases names.len(),
{
    if names.len() == 0 {
        names
    } else if names.last() == name {
        without(names.drop_last(), name)
    } else {
        without(names.drop_last(), name).push(names.last())
    }
}

/// Whether `name` is among `names`.
pub fn contains_name(names: &Vec<String>, name: &str) -> (r: bool)
    ensures
        r == names.deep_view().contains(name@),
{
    let mut i: usize = 0;
    while i < names.len()
        invariant
            0 <= i <= names.len(),
            forall|j: int| 0 <= j < i ==> names.deep_view()[j] != name@,
        decreases names.len() - i,
    {
        if str_eq(names[i].as_str(), name) {
            proof {
                assert(names.deep_view()[i as int] == name@);
            }
            return true;
        }
        i += 1;
    }
    false
}

/// The names of `names` that differ from `name`, in their order.
pub fn without_name(names: &Vec<String>, name: &str) -> (r: Vec<String>)
    ensures
        r.deep_view() == without(names.deep_view(), name@),
{
    let mut out: Vec<String> = Vec::new();
    let mut i: usize = 0;
    while i < names.len()
        invariant
            0 <= i <= names.len(),
            out.deep_view() == without(names.deep_view().take(i as int), name@),
        decreases names.len() - i,
    {
        proof {
            let next = names.deep_view().take(i + 1);
            assert(next.drop_last() =~= names.deep_view().take(i as int));
            assert(next.last() == names[i as int]@);
        }
        if !str_eq(names[i].as_str(), name) {
            let ghost before = out;
            out.push(names[i].clone());
            proof {
                crate::llm::types::lemma_deep_view_push(before, out, out[out.len() - 1]);
            }
        }
        i += 1;
    }
    proof {
        assert(names.deep_view().take(names.len() as int) =~= names.deep_view());
    }
    out
}

/// Manages permissions for tool execution.
pub struct PermissionManager {
    /// Tools that are always allowed; no name twice.
    always_allow: Vec<String>,
    /// Tools that are always denied; no name twice.
    always_deny: Vec<String>,
    /// Permission rules.
    rules: Vec<Permission>,
}

impl PermissionManager {
    /// No tool is named twice in either set, and none stands in both.
    pub closed spec fn wf(self) -> bool {
        &&& self.always_allow.deep_view().no_duplicates()
        &&& self.always_deny.deep_view().no_duplicates()
        &&& self.always_allow.deep_view().to_set().disjoint(self.always_deny.deep_view().to_set())
    }

    /// The tools that are always allowed and those that are always denied.
    pub closed spec fn decisions(self) -> AutoDecisions {
        AutoDecisions {
            allowed: self.always_allow.deep_view().to_set(),
            denied: self.always_deny.deep_view().to_set(),
        }
    }

    /// The rules added so far, in order.
    pub closed spec fn rules_view(self) -> Seq<PermissionView> {
        self.rules.deep_view()
    }

    /// A manager without rules.
    pub fn new() -> (r: PermissionManager)
        ensures
            r.wf(),
            r.decisions() == AutoDecisions::empty(),
            r.rules_view() == Seq::<PermissionView>::empty(),
    {
        let r = PermissionManager {
            always_allow: Vec::new(),
            always_deny: Vec::new(),
            rules: Vec::new(),
        };
        proof {
            assert(r.always_allow.deep_view() =~= Seq::empty());
            assert(r.always_deny.deep_view() =~= Seq::empty());
            assert(r.rules.deep_view() =~= Seq::empty());
            assert(r.decisions().allowed =~= Set::empty());
            assert(r.decisions().denied =~= Set::empty());
        }
        r
    }

    /// Adds a permission rule behind the others.
    pub fn add_rule(&mut self, rule: Permission)
        requires
            old(self).wf(),
        ensures
            final(self).wf(),
            final(self).rules_view() == old(self).rules_view().push(rule.deep_view()),
            final(self).decisions() == old(self).decisions(),
    {
        let ghost before = self.rules;
        self.rules.push(rule);
        proof {
            crate::llm::types::lemma_deep_view_push(before, self.rules, rule);
        }
    }

    /// Sets a tool to always be allowed.
    pub fn always_allow_tool(&mut self, tool_name: &str)
        requires
            old(self).wf(),
        ensures
            final(self).wf(),
            final(self).decisions() == old(self).decisions().allow(tool_name@),
            final(self).rules_view() == old(self).rules_view(),
    {
        let denied = without_name(&self.always_deny, tool_name);
        let present = contains_name(&self.always_allow, tool_name);
        proof {
            lemma_without(self.always_deny.deep_view(), tool_name@);
        }
        self.always_deny = denied;
        if !present {
            let ghost before = self.always_allow;
            self.always_allow.push(tool_name.to_string());
            proof {
                crate::llm::types::lemma_deep_view_push(
                    before,
                    self.always_allow,
                    self.always_allow[self.always_allow.len() - 1],
                );
                lemma_push_set(before.deep_view(), tool_name@);
            }
        }
        proof {
            assert(final(self).decisions().allowed =~= old(self).decisions().allowed.insert(tool_name@));
            assert(final(self).decisions().denied =~= old(self).decisions().denied.remove(tool_name@));
        }
    }

    /// Sets a tool to always be denied.
    pub fn always_deny_tool(&mut self, tool_name: &str)
        requires
            old(self).wf(),
        ensures
            final(self).wf(),
            final(self).decisions() == old(self).decisions().deny(tool_name@),
            final(self).rules_view() == old(self).rules_view(),
    {
        let allowed = without_name(&self.always_allow, tool_name);
        let present = contains_name(&self.always_deny, tool_name);
        proof {
            lemma_without(self.always_allow.deep_view(), tool_name@);
        }
        self.always_allow = allowed;
        if !present {
            let ghost before = self.always_deny;
            self.always_deny.push(tool_name.to_string());
            proof {
                crate::llm::types::lemma_deep_view_push(
                    before,
                    self.always_deny,
                    self.always_deny[self.always_deny.len() - 1],
                );
                lemma_push_set(before.deep_view(), tool_name@);
            }
        }
        proof {
            assert(final(self).decisions().denied =~= old(self).decisions().denied.insert(tool_name@));
            assert(final(self).decisions().allowed =~= old(self).decisions().allowed.remove(tool_name@));
        }
    }

    /// Clears all "always allow" and "always deny" settings.
    pub fn clear_auto_decisions(&mut self)
        ensures
            final(self).wf(),
            final(self).decisions() == AutoDecisions::empty(),
            final(self).rules_view() == old(self).rules_view(),
    {
        self.always_allow = Vec::new();
        self.always_deny = Vec::new();
        proof {
            assert(self.always_allow.deep_view() =~= Seq::empty());
            assert(self.always_deny.deep_view() =~= Seq::empty());
            assert(self.decisions().allowed =~= Set::empty());
            assert(self.decisions().denied =~= Set::empty());
        }
    }

    /// Whether a tool is automatically allowed (`Some(true)`), automatically
    /// denied (`Some(false)`), or the user must be asked (`None`).
    pub fn check_auto_decision(&self, tool_name: &str) -> (r: Option<bool>)
        ensures
            r == self.decisions().check(tool_name@),
    {
        if contains_name(&self.always_allow, tool_name) {
            return Some(true);
        }
        if contains_name(&self.always_deny, tool_name) {
            return Some(false);
        }
        None
    }

    /// Records a user's decision: the two "always" decisions change the rules
    /// for the tool, the one-time decisions change nothing.
    pub fn process_decision(&mut self, tool_name: &str, decision: PermissionDecision)
        requires
            old(self).wf(),
        ensures
            final(self).wf(),
            final(self).decisions() == old(self).decisions().decide(tool_name@, decision),
            final(self).rules_view() == old(self).rules_view(),
    {
        match decision {
            PermissionDecision::AlwaysAllow => {
                self.always_allow_tool(tool_name);
            },
            PermissionDecision::AlwaysDeny => {
                self.always_deny_tool(tool_name);
            },
            PermissionDecision::Allow | PermissionDecision::Deny => {},
        }
    }

    /// Whether the rules settle a request. The rules added with
    /// [`PermissionManager::add_rule`] are kept for later use and settle
    /// nothing yet, so this is always `None`.
    pub fn evaluate_rules(&self, _request: &PermissionRequest) -> (r: Option<bool>)
        ensures
            r is None,
    {
        None
    }

    /// The tools that are always allowed, each once.
    pub fn get_always_allowed(&self) -> (r: Vec<String>)
        requires
            self.wf(),
        ensures
            r.deep_view().to_set() == self.decisions().allowed,
            r.deep_view().no_duplicates(),
    {
        crate::llm::types::clone_strings(&self.always_allow)
    }

    /// The tools that are always denied, each once.
    pub fn get_always_denied(&self) -> (r: Vec<String>)
        requires
            self.wf(),
        ensures
            r.deep_view().to_set() == self.decisions().denied,
            r.deep_view().no_duplicates(),
    {
        crate::llm::types::clone_strings(&self.always_deny)
    }
}

impl Default for PermissionManager {
    fn default() -> (r: PermissionManager)
        ensures
            r.wf(),
            r.decisions() == AutoDecisions::empty(),
            r.rules_view() == Seq::<PermissionView>::empty(),
    {
        PermissionManager::new()
    }
}

/// The names kept are those of the list other than `name`.
pub proof fn lemma_without_contains(names: Seq<Seq<char>>, name: Seq<char>)
    ensures
        forall|x: Seq<char>| #[trigger]
            without(names, name).contains(x) <==> names.contains(x) && x != name,
        names.no_duplicates() ==> without(names, name).no_duplicates(),
    decreases names.len(),
{
    let kept = without(names, name);
    if names.len() > 0 {
        let rest = names.drop_last();
        let last = names.last();
        lemma_without_contains(rest, name);
        let kept_rest = without(rest, name);
        assert forall|x: Seq<char>| #[trigger] kept.contains(x) <==> names.contains(x) && x != name by {
            if kept.contains(x) {
                let i = choose|i: int| 0 <= i < kept.len() && kept[i] == x;
                if last != name && i == kept.len() - 1 {
                    assert(names[names.len() - 1] == x);
                } else {
                    assert(kept_rest[i] == x);
                    assert(kept_rest.contains(x));
                    let j = choose|j: int| 0 <= j < rest.len() && rest[j] == x;
                    assert(names[j] == x);
                }
            }
            if names.contains(x) && x != name {
                let j = choose|j: int| 0 <= j < names.len() && names[j] == x;
                if j == names.len() - 1 {
                    assert(kept[kept.len() - 1] == x);
                } else {
                    assert(rest[j] == x);
                    assert(rest.contains(x));
                    assert(kept_rest.contains(x));
                    let i = choose|i: int| 0 <= i < kept_rest.len() && kept_rest[i] == x;
                    assert(kept[i] == x);
                }
            }
        }
        if names.no_duplicates() {
            assert(rest.no_duplicates());
            if last != name {
                assert forall|i: int, j: int|
                    0 <= i < kept.len() && 0 <= j < kept.len() && i != j implies kept[i] != kept[j] by {
                    if i < kept_rest.len() && j < kept_rest.len() {
                    } else {
                        let k = if i < kept_rest.len() { i } else { j };
                        assert(kept_rest.contains(kept_rest[k]));
                        assert(rest.contains(kept_rest[k]));
                        let m = choose|m: int| 0 <= m < rest.len() && rest[m] == kept_rest[k];
                        assert(names[m] == kept_rest[k]);
                        assert(names[m] != names[names.len() - 1]);
                    }
                }
            }
        }
    }
}

/// Taking `name` out of a list without duplicates keeps it without
/// duplicates and removes `name` from its set.
pub proof fn lemma_without(names: Seq<Seq<char>>, name: Seq<char>)
    requires
        names.no_duplicates(),
    ensures
        without(names, name).no_duplicates(),
        without(names, name).to_set() == names.to_set().remove(name),
{
    lemma_without_contains(names, name);
    let kept = without(names, name);
    assert forall|x: Seq<char>| kept.to_set().contains(x) <==> names.to_set().remove(name).contains(
        x,
    ) by {
        assert(kept.contains(x) <==> names.contains(x) && x != name);
    }
    assert(kept.to_set() =~= names.to_set().remove(name));
}

/// Pushing a name that is not in a list without duplicates keeps it without
/// duplicates and inserts the name into its set.
pub proof fn lemma_push_set(names: Seq<Seq<char>>, name: Seq<char>)
    ensures
        names.push(name).to_set() == names.to_set().insert(name),
        names.no_duplicates() && !names.contains(name) ==> names.push(name).no_duplicates(),
{
    let pushed = names.push(name);
    assert forall|x: Seq<char>| pushed.to_set().contains(x) <==> names.to_set().insert(name).contains(
        x,
    ) by {
        if pushed.contains(x) {
            let i = choose|i: int| 0 <= i < pushed.len() && pushed[i] == x;
            if i < names.len() {
                assert(names[i] == x);
                assert(names.contains(x));
            }
        }
        if names.contains(x) {
            let i = choose|i: int| 0 <= i < names.len() && names[i] == x;
            assert(pushed[i] == x);
        }
        if x == name {
            assert(pushed[names.len() as int] == x);
        }
    }
    assert(pushed.to_set() =~= names.to_set().insert(name));
    if names.no_duplicates() && !names.contains(name) {
        assert forall|i: int, j: int| 0 <= i < pushed.len() && 0 <= j < pushed.len() && i != j implies pushed[i] != pushed[j] by {
            if i < names.len() && j < names.len() {
            } else if i < names.len() {
                assert(names.contains(names[i]));
            } else {
                assert(names.contains(names[j]));
            }
        }
    }
}

/// An "always deny" holds until it is revoked: after `AlwaysDeny` for a tool,
/// and whatever decisions follow for this or any other tool, the automatic
/// decision for the tool is to deny, as long as none of them is an
/// `AlwaysAllow` for it. Likewise for "always allow".
pub proof fn lemma_auto_decision_persists(
    start: AutoDecisions,
    name: Seq<char>,
    later: Seq<(Seq<char>, PermissionDecision)>,
)
    ensures
        (forall|i: int|
            0 <= i < later.len() ==> !(#[trigger] later[i] == (name, PermissionDecision::AlwaysAllow)))
            ==> start.deny(name).decide_all(later).check(name) == Some(false),
        (forall|i: int|
            0 <= i < later.len() ==> !(#[trigger] later[i] == (name, PermissionDecision::AlwaysDeny)))
            ==> start.allow(name).decide_all(later).check(name) == Some(true),
    decreases later.len(),
{
    if later.len() > 0 {
        let rest = later.drop_last();
        lemma_auto_decision_persists(start, name, rest);
        assert forall|i: int| 0 <= i < rest.len() implies rest[i] == later[i] by {}
        let last = later[later.len() - 1];
        assert(later.last() == last);
        if forall|i: int|
            0 <= i < later.len() ==> !(#[trigger] later[i] == (name, PermissionDecision::AlwaysAllow)) {
            assert forall|i: int| 0 <= i < rest.len() implies !(#[trigger] rest[i] == (
                name,
                PermissionDecision::AlwaysAllow,
            )) by {
                assert(rest[i] == later[i]);
            }
            assert(!(last == (name, PermissionDecision::AlwaysAllow)));
        }
        if forall|i: int|
            0 <= i < later.len() ==> !(#[trigger] later[i] == (name, PermissionDecision::AlwaysDeny)) {
            assert forall|i: int| 0 <= i < rest.len() implies !(#[trigger] rest[i] == (
                name,
                PermissionDecision::AlwaysDeny,
            )) by {
                assert(rest[i] == later[i]);
            }
            assert(!(last == (name, PermissionDecision::AlwaysDeny)));
        }
    }
}

} // verus!
