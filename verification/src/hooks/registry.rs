//! The registry of hooks: which hooks are registered for which event, and
//! which of them run for a given event.
//!
//! The registry holds no code. A hook is known by its place in the order of
//! registration; the caller keeps the hooks themselves and runs those that
//! the registry selects, all of them, in order.

use vstd::prelude::*;
use crate::hooks::types::HookEvent;
use crate::llm::types::lemma_deep_view_push;
use crate::pattern::{is_match, regex_found};
use crate::text::concat3;

verus! {

/// A filter on tool names: none, or a pattern that the whole name must
/// match.
#[derive(Debug)]
pub struct HookMatcher {
    pattern: Option<String>,
}

impl DeepView for HookMatcher {
    type V = Option<Seq<char>>;

    closed spec fn deep_view(&self) -> Option<Seq<char>> {
        self.pattern.deep_view()
    }
}

/// The pattern that matches a name as a whole where `pattern` matches it.
pub open spec fn anchored(pattern: Seq<char>) -> Seq<char> {
    "^(?:"@ + pattern + ")$"@
}

/// Whether a pattern can be matched at all.
pub open spec fn valid_filter(pattern: Seq<char>) -> bool {
    regex_found(anchored(pattern), ""@) is Some
}

/// Whether a filter lets a hook run for a tool. Without a pattern every
/// event passes. With one, only an event for a tool whose whole name matches
/// the pattern passes.
pub open spec fn filter_passes(pattern: Option<Seq<char>>, tool_name: Option<Seq<char>>) -> bool {
    match pattern {
        None => true,
        Some(p) => match tool_name {
            Some(name) => regex_found(anchored(p), name) == Some(true),
            None => false,
        },
    }
}

impl HookMatcher {
    /// The filter that lets every event pass.
    pub fn any() -> (r: HookMatcher)
        ensures
            r.deep_view() is None,
    {
        HookMatcher { pattern: None }
    }

    /// The filter for a pattern, or `None` for a pattern that cannot be
    /// matched.
    pub fn for_pattern(pattern: &str) -> (r: Option<HookMatcher>)
        ensures
            match r {
                Some(matcher) => matcher.deep_view() == Some(pattern@) && valid_filter(pattern@),
                None => !valid_filter(pattern@),
            },
    {
        let whole = concat3("^(?:", pattern, ")$");
        match is_match(whole.as_str(), "") {
            Some(_) => Some(HookMatcher { pattern: Some(pattern.to_string()) }),
            None => None,
        }
    }

    /// Whether the filter lets a hook run for this tool.
    pub fn matches(&self, tool_name: Option<&str>) -> (r: bool)
        ensures
            r == filter_passes(
                self.deep_view(),
                match tool_name {
                    Some(name) => Some(name@),
                    None => None,
                },
            ),
    {
        match &self.pattern {
            None => true,
            Some(p) => match tool_name {
                Some(name) => {
                    let whole = concat3("^(?:", p.as_str(), ")$");
                    match is_match(whole.as_str(), name) {
                        Some(found) => found,
                        None => false,
                    }
                },
                None => false,
            },
        }
    }
}

/// One registered hook: its event and its filter.
#[derive(Debug)]
pub struct HookEntry {
    pub event: HookEvent,
    pub matcher: HookMatcher,
}

/// The model of a [`HookEntry`].
pub ghost struct HookEntryView {
    pub event: HookEvent,
    pub pattern: Option<Seq<char>>,
}

impl DeepView for HookEntry {
    type V = HookEntryView;

    open spec fn deep_view(&self) -> HookEntryView {
        HookEntryView { event: self.event, pattern: self.matcher.deep_view() }
    }
}

/// The places of the hooks that run for an event, in the order of
/// registration: those registered for the event whose filter passes. No hook
/// keeps another from running.
pub open spec fn selected(
    entries: Seq<HookEntryView>,
    event: HookEvent,
    tool_name: Option<Seq<char>>,
) -> Seq<usize>
    decreases entries.len(),
{
    if entries.len() == 0 {
        Seq::empty()
    } else {
        let rest = selected(entries.drop_last(), event, tool_name);
        let last = entries.last();
        if last.event == event && filter_passes(last.pattern, tool_name) {
            rest.push((entries.len() - 1) as usize)
        } else {
            rest
        }
    }
}

/// What is said of a pattern that cannot be matched.
pub open spec fn invalid_pattern(pattern: Seq<char>) -> Seq<char> {
    "Invalid hook pattern: "@ + pattern
}

/// The hooks in the order in which they were registered.
#[derive(Debug)]
pub struct HookRegistry {
    entries: Vec<HookEntry>,
}

impl DeepView for HookRegistry {
    type V = Seq<HookEntryView>;

    closed spec fn deep_view(&self) -> Seq<HookEntryView> {
        self.entries.deep_view()
    }
}

impl HookRegistry {
    /// A registry without hooks.
    pub fn new() -> (r: HookRegistry)
        ensures
            r.deep_view() == Seq::<HookEntryView>::empty(),
    {
        let r = HookRegistry { entries: Vec::new() };
        proof {
            assert(r.entries.deep_view() =~= Seq::empty());
        }
        r
    }

    /// The number of hooks.
    pub fn len(&self) -> (r: usize)
        ensures
            r == self.deep_view().len(),
    {
        self.entries.len()
    }

    /// Registers a hook for every occurrence of an event. Returns its place.
    pub fn add(&mut self, event: HookEvent) -> (r: usize)
        ensures
            r == old(self).deep_view().len(),
            final(self).deep_view() == old(self).deep_view().push(
                HookEntryView { event, pattern: None },
            ),
    {
        let place = self.entries.len();
        let ghost before = self.entries;
        self.entries.push(HookEntry { event, matcher: HookMatcher::any() });
        proof {
            lemma_deep_view_push(before, self.entries, self.entries[place as int]);
        }
        place
    }

    /// Registers a hook for the occurrences of an event for tools whose name
    /// matches a pattern. Returns its place, or an error for a pattern that
    /// cannot be matched, which registers nothing.
    pub fn add_with_pattern(&mut self, event: HookEvent, pattern: &str) -> (r: Result<usize, String>)
        ensures
            match r {
                Ok(place) => place == old(self).deep_view().len() && final(self).deep_view() == old(
                    self,
                ).deep_view().push(HookEntryView { event, pattern: Some(pattern@) })
                    && valid_filter(pattern@),
                Err(message) => final(self).deep_view() == old(self).deep_view() && message@
                    == invalid_pattern(pattern@) && !valid_filter(pattern@),
            },
    {
        match HookMatcher::for_pattern(pattern) {
            Some(matcher) => {
                let place = self.entries.len();
                let ghost before = self.entries;
                self.entries.push(HookEntry { event, matcher });
                proof {
                    lemma_deep_view_push(before, self.entries, self.entries[place as int]);
                }
                Ok(place)
            },
            None => Err(crate::text::concat("Invalid hook pattern: ", pattern)),
        }
    }

    /// The places of the hooks that run for an event, in the order of
    /// registration.
    pub fn matching(&self, event: HookEvent, tool_name: Option<&str>) -> (r: Vec<usize>)
        ensures
            r@ == selected(
                self.deep_view(),
                event,
                match tool_name {
                    Some(name) => Some(name@),
                    None => None,
                },
            ),
    {
        let ghost name: Option<Seq<char>> = match tool_name {
            Some(name) => Some(name@),
            None => None,
        };
        let mut out: Vec<usize> = Vec::new();
        let mut i: usize = 0;
        while i < self.entries.len()
            invariant
                0 <= i <= self.entries.len(),
                name == match tool_name {
                    Some(n) => Some(n@),
                    None => None,
                },
                out@ == selected(self.entries.deep_view().take(i as int), event, name),
            decreases self.entries.len() - i,
        {
            proof {
                let next = self.entries.deep_view().take(i + 1);
                assert(next.drop_last() =~= self.entries.deep_view().take(i as int));
                assert(next.last() == self.entries[i as int].deep_view());
            }
            if self.entries[i].event == event && self.entries[i].matcher.matches(tool_name) {
                out.push(i);
            }
            i += 1;
        }
        proof {
            assert(self.entries.deep_view().take(self.entries.len() as int)
                =~= self.entries.deep_view());
        }
        out
    }
}

/// Every hook that is registered for an event and whose filter passes is
/// among those selected, whatever is registered before or after it.
pub proof fn lemma_no_hook_skipped(
    entries: Seq<HookEntryView>,
    event: HookEvent,
    tool_name: Option<Seq<char>>,
    place: int,
)
    requires
        0 <= place < entries.len(),
        place <= usize::MAX,
        entries[place].event == event,
        filter_passes(entries[place].pattern, tool_name),
    ensures
        selected(entries, event, tool_name).contains(place as usize),
    decreases entries.len(),
{
    let rest = selected(entries.drop_last(), event, tool_name);
    if place == entries.len() - 1 {
        let all = selected(entries, event, tool_name);
        assert(all == rest.push(place as usize));
        assert(all[all.len() - 1] == place as usize);
    } else {
        assert(entries.drop_last()[place] == entries[place]);
        lemma_no_hook_skipped(entries.drop_last(), event, tool_name, place);
        let k = choose|k: int| 0 <= k < rest.len() && rest[k] == place as usize;
        let all = selected(entries, event, tool_name);
        assert(all[k] == place as usize);
    }
}

} // verus!
