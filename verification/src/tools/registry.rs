//! The registry of tools: what is declared to the model, and what is known
//! of a tool by its name.

use vstd::prelude::*;
use crate::llm::types::ToolDefinition;
use crate::text::str_eq;
use crate::tools::tool::{Tool, ToolInfo};

verus! {

/// One registered tool: the tool, with the name it goes by and whether it
/// asks for permission, both as it declared them when it was registered.
pub struct RegisteredTool {
    name: String,
    asks_permission: bool,
    tool: Box<dyn Tool>,
}

/// The tools that the agent can use, in the order in which they were
/// registered. A tool is known by the name under which it was registered;
/// of two tools with one name the first is the one that is found.
pub struct ToolRegistry {
    tools: Vec<RegisteredTool>,
}

impl ToolRegistry {
    /// A registry without tools.
    pub fn new() -> (r: ToolRegistry)
        ensures
            r.entries() == Seq::<RegisteredView>::empty(),
    {
        let r = ToolRegistry { tools: Vec::new() };
        assert(r.entries() =~= Seq::<RegisteredView>::empty());
        r
    }

    /// Registers a tool behind the others, under the name and with the need
    /// of permission that it declares now. What it declares is the tool's
    /// own matter; `register_as` says what is done with it.
    pub fn register<T: Tool + 'static>(&mut self, tool: T)
        ensures
            final(self).entries().len() == old(self).entries().len() + 1,
            final(self).entries().drop_last() == old(self).entries(),
    {
        let name = tool.name();
        let asks_permission = tool.requires_permission();
        self.register_as(name, asks_permission, tool);
    }

    /// The number of tools.
    pub fn len(&self) -> (r: usize)
        ensures
            r == self.count(),
    {
        self.tools.len()
    }

    /// The declarations of all tools, one for each, in the order of
    /// registration.
    pub fn get_definitions(&self) -> (r: Vec<ToolDefinition>)
        ensures
            r.len() == self.count(),
    {
        let mut out: Vec<ToolDefinition> = Vec::new();
        let mut i: usize = 0;
        while i < self.tools.len()
            invariant
                0 <= i <= self.tools.len(),
                out.len() == i,
            decreases self.tools.len() - i,
        {
            out.push(self.tools[i].tool.definition());
            i += 1;
        }
        out
    }

    /// The place of the first tool that goes by this name.
    pub fn position(&self, name: &str) -> (r: Option<usize>)
        ensures
            r == first_place(self.entries(), name@),
    {
        let mut i: usize = 0;
        while i < self.tools.len()
            invariant
                0 <= i <= self.tools.len(),
                forall|j: int| 0 <= j < i ==> (#[trigger] self.entries()[j]).name != name@,
            decreases self.tools.len() - i,
        {
            if str_eq(self.tools[i].name.as_str(), name) {
                proof { lemma_first_place(self.entries(), name@, i as int); }
                return Some(i);
            }
            i += 1;
        }
        proof { lemma_no_place(self.entries(), name@); }
        None
    }
    /// What the tool of this name says of a call with this input; `None`
    /// for a name that no tool goes by.
    pub fn get_tool_info(&self, name: &str, input: &serde_json::Value) -> (r: Option<ToolInfo>)
        ensures
            r is Some == registered(self.entries(), name@),
    {
        match self.position(name) {
            Some(place) => Some(self.tools[place].tool.get_info(input)),
            None => None,
        }
    }

    /// Whether a call of the tool of this name asks for permission. A name
    /// that no tool goes by asks for it.
    pub fn requires_permission(&self, name: &str) -> (r: bool)
        ensures
            r == asks_permission(self.entries(), name@),
    {
        match self.position(name) {
            Some(place) => {
                let count = self.tools.len();
                proof {
                    let found = place_of(self.entries(), name@);
                    assert(is_first_place(self.entries(), name@, found));
                    assert(0 <= found < count);
                    assert(found == place as int);
                    assert(self.entries()[found] == self.tools@[found].view_of());
                }
                self.tools[place].asks_permission
            },
            None => true,
        }
    }
}

/// What is known of a registered tool: the name it goes by, and whether it
/// asks for permission.
pub ghost struct RegisteredView {
    pub name: Seq<char>,
    pub asks_permission: bool,
}

impl RegisteredTool {
    /// What is known of the tool.
    pub closed spec fn view_of(self) -> RegisteredView {
        RegisteredView { name: self.name@, asks_permission: self.asks_permission }
    }
}

/// Whether `place` is the first place of a tool that goes by `name`.
pub open spec fn is_first_place(entries: Seq<RegisteredView>, name: Seq<char>, place: int) -> bool {
    &&& 0 <= place < entries.len()
    &&& entries[place].name == name
    &&& forall|j: int| 0 <= j < place ==> (#[trigger] entries[j]).name != name
}

/// Whether a tool goes by `name`.
pub open spec fn registered(entries: Seq<RegisteredView>, name: Seq<char>) -> bool {
    exists|place: int| is_first_place(entries, name, place)
}

/// The first place of a tool that goes by `name`.
pub open spec fn place_of(entries: Seq<RegisteredView>, name: Seq<char>) -> int {
    choose|place: int| is_first_place(entries, name, place)
}

/// The first place of a tool that goes by `name`, if there is one.
pub open spec fn first_place(entries: Seq<RegisteredView>, name: Seq<char>) -> Option<usize> {
    if registered(entries, name) {
        Some(place_of(entries, name) as usize)
    } else {
        None
    }
}

/// Whether a call of the tool that goes by `name` asks for permission: what
/// the tool declared, and for a name that no tool goes by, that it does.
pub open spec fn asks_permission(entries: Seq<RegisteredView>, name: Seq<char>) -> bool {
    if registered(entries, name) {
        entries[place_of(entries, name)].asks_permission
    } else {
        true
    }
}

/// A first place of a name is the only one.
pub proof fn lemma_first_place(entries: Seq<RegisteredView>, name: Seq<char>, place: int)
    requires
        is_first_place(entries, name, place),
    ensures
        registered(entries, name),
        place_of(entries, name) == place,
{
    let chosen = place_of(entries, name);
    assert(is_first_place(entries, name, chosen));
    if chosen < place {
        assert(entries[chosen].name != name);
    }
    if place < chosen {
        assert(entries[place].name != name);
    }
}

/// Where no tool goes by a name, the name is not registered.
pub proof fn lemma_no_place(entries: Seq<RegisteredView>, name: Seq<char>)
    requires
        forall|j: int| 0 <= j < entries.len() ==> (#[trigger] entries[j]).name != name,
    ensures
        !registered(entries, name),
{
    assert forall|place: int| !is_first_place(entries, name, place) by {
        if 0 <= place < entries.len() {
            assert(entries[place].name != name);
        }
    }
}

impl ToolRegistry {
    /// What is known of the tools, in the order of registration.
    pub closed spec fn entries(self) -> Seq<RegisteredView> {
        views_of(self.tools@)
    }

    /// The number of tools.
    pub open spec fn count(self) -> nat {
        self.entries().len()
    }

    /// Registers a tool behind the others, under the name and with the need
    /// of permission given.
    pub fn register_as<T: Tool + 'static>(&mut self, name: String, asks_permission: bool, tool: T)
        ensures
            final(self).entries() == old(self).entries().push(
                RegisteredView { name: name@, asks_permission },
            ),
    {
        let boxed: Box<dyn Tool> = Box::new(tool);
        push_entry(&mut self.tools, RegisteredTool { name, asks_permission, tool: boxed });
    }
}

/// What is known of each of the tools, in order.
pub closed spec fn views_of(tools: Seq<RegisteredTool>) -> Seq<RegisteredView> {
    tools.map_values(|t: RegisteredTool| t.view_of())
}

/// Puts a tool behind the others.
fn push_entry(tools: &mut Vec<RegisteredTool>, entry: RegisteredTool)
    ensures
        views_of(final(tools)@) == views_of(old(tools)@).push(entry.view_of()),
{
    tools.push(entry);
    assert(views_of(tools@) =~= views_of(old(tools)@).push(entry.view_of()));
}

} // verus!
