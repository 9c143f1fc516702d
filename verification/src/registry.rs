//! The tool registry: which tool names a session offers, each exactly once.

use vstd::prelude::*;
use vstd::string::*;

verus! {

/// What the agent is told of one registered tool.
#[derive(Debug)]
pub struct ToolEntry {
    /// The name under which the agent invokes the tool.
    pub name: String,
    /// What the tool does, in words for the agent.
    pub description: String,
}

/// The mathematical value of a [`ToolEntry`].
pub struct ToolEntryView {
    pub name: Seq<char>,
    pub description: Seq<char>,
}

impl View for ToolEntry {
    type V = ToolEntryView;

    open spec fn view(&self) -> ToolEntryView {
        ToolEntryView { name: self.name@, description: self.description@ }
    }
}

impl DeepView for ToolEntry {
    type V = ToolEntryView;

    open spec fn deep_view(&self) -> ToolEntryView {
        self@
    }
}

impl ToolEntry {
    /// An entry for the tool `name` with the given description.
    pub fn new(name: &str, description: &str) -> (r: ToolEntry)
        ensures
            r@ == (ToolEntryView { name: name@, description: description@ }),
    {
        ToolEntry { name: name.to_owned(), description: description.to_owned() }
    }
}

/// Whether a tool of this name is registered.
pub open spec fn has_tool(tools: Seq<ToolEntryView>, name: Seq<char>) -> bool {
    exists|i: int| 0 <= i < tools.len() && (#[trigger] tools[i]).name == name
}

/// Whether no name is registered twice.
pub open spec fn names_unique(tools: Seq<ToolEntryView>) -> bool {
    forall|i: int, j: int|
        0 <= i < j < tools.len() ==> (#[trigger] tools[i]).name != (#[trigger] tools[j]).name
}

/// The registry after an attempt to register `entry`: a new name is added
/// behind the others; a name that is already there is refused, and the
/// registry stays as it is.
pub open spec fn register(tools: Seq<ToolEntryView>, entry: ToolEntryView) -> Seq<ToolEntryView> {
    if has_tool(tools, entry.name) {
        tools
    } else {
        tools.push(entry)
    }
}

/// Registering keeps names unique and keeps every entry that was there. The
/// entry's name is registered afterwards, and no other name is gained or
/// lost.
pub proof fn lemma_register(tools: Seq<ToolEntryView>, entry: ToolEntryView)
    requires
        names_unique(tools),
    ensures
        names_unique(register(tools, entry)),
        tools.is_prefix_of(register(tools, entry)),
        has_tool(register(tools, entry), entry.name),
        forall|name: Seq<char>|
            has_tool(register(tools, entry), name) <==> has_tool(tools, name) || name == entry.name,
{
    let after = register(tools, entry);
    if has_tool(tools, entry.name) {
    } else {
        assert(after[tools.len() as int].name == entry.name);
        assert forall|name: Seq<char>| has_tool(after, name) <==> has_tool(tools, name) || name
            == entry.name by {
            if has_tool(after, name) {
                let i = choose|i: int| 0 <= i < after.len() && (#[trigger] after[i]).name == name;
                if i < tools.len() {
                    assert(tools[i].name == name);
                }
            }
            if has_tool(tools, name) {
                let i = choose|i: int| 0 <= i < tools.len() && (#[trigger] tools[i]).name == name;
                assert(after[i].name == name);
            }
        }
        assert forall|i: int, j: int| 0 <= i < j < after.len() implies (#[trigger] after[i]).name
            != (#[trigger] after[j]).name by {
            if j == tools.len() {
                assert(tools[i].name != entry.name);
            }
        }
    }
}

/// The tools registered for a session, in the order in which their names
/// first came. No name is held twice.
#[derive(Debug)]
pub struct ToolRegistry {
    entries: Vec<ToolEntry>,
}

impl View for ToolRegistry {
    type V = Seq<ToolEntryView>;

    closed spec fn view(&self) -> Seq<ToolEntryView> {
        self.entries.deep_view()
    }
}

impl ToolRegistry {
    #[verifier::type_invariant]
    spec fn names_are_unique(self) -> bool {
        names_unique(self.entries.deep_view())
    }

    /// A registry without tools.
    pub fn new() -> (r: ToolRegistry)
        ensures
            r@ == Seq::<ToolEntryView>::empty(),
    {
        let entries: Vec<ToolEntry> = Vec::new();
        assert(entries.deep_view() =~= Seq::<ToolEntryView>::empty());
        ToolRegistry { entries }
    }

    /// The number of registered tools.
    pub fn len(&self) -> (r: usize)
        ensures
            r == self@.len(),
            names_unique(self@),
    {
        proof {
            use_type_invariant(self);
        }
        self.entries.len()
    }

    /// The registered tools in order.
    pub fn entries(&self) -> (r: &Vec<ToolEntry>)
        ensures
            r.deep_view() == self@,
            names_unique(self@),
    {
        proof {
            use_type_invariant(self);
        }
        &self.entries
    }

    /// The position of the tool `name`, if it is registered.
    pub fn find(&self, name: &str) -> (r: Option<usize>)
        ensures
            match r {
                Some(i) => i < self@.len() && self@[i as int].name == name@,
                None => !has_tool(self@, name@),
            },
            r is Some <==> has_tool(self@, name@),
            names_unique(self@),
    {
        proof {
            use_type_invariant(self);
        }
        let ghost all = self.entries.deep_view();
        let wanted = name.to_owned();
        let mut i: usize = 0;
        while i < self.entries.len()
            invariant
                i <= self.entries.len(),
                all == self.entries.deep_view(),
                all.len() == self.entries.len(),
                wanted@ == name@,
                names_unique(all),
                forall|j: int| 0 <= j < i ==> (#[trigger] all[j]).name != name@,
            decreases self.entries.len() - i,
        {
            assert(all[i as int] == self.entries[i as int]@);
            if self.entries[i].name == wanted {
                return Some(i);
            }
            i += 1;
        }
        None
    }

    /// Whether a tool of this name is registered.
    pub fn contains(&self, name: &str) -> (r: bool)
        ensures
            r == has_tool(self@, name@),
    {
        self.find(name).is_some()
    }

    /// The description registered for the tool `name`, if there is one.
    pub fn description_of(&self, name: &str) -> (r: Option<&String>)
        ensures
            match r {
                Some(d) => exists|i: int|
                    0 <= i < self@.len() && (#[trigger] self@[i]).name == name@ && self@[i].description
                        == d@,
                None => !has_tool(self@, name@),
            },
    {
        match self.find(name) {
            Some(i) => {
                assert(self.entries.deep_view()[i as int] == self.entries[i as int]@);
                Some(&self.entries[i].description)
            },
            None => None,
        }
    }

    /// Registers `entry` if its name is new, and says whether it did. A name
    /// that is already registered is refused: the registry stays as it is.
    pub fn register(&mut self, entry: ToolEntry) -> (added: bool)
        ensures
            final(self)@ == register(old(self)@, entry@),
            added == !has_tool(old(self)@, entry@.name),
            names_unique(final(self)@),
    {
        proof {
            use_type_invariant(&*self);
            lemma_register(self@, entry@);
        }
        if self.contains(entry.name.as_str()) {
            return false;
        }
        let ghost before = self.entries.deep_view();
        let ghost target = entry@;
        let mut entries: Vec<ToolEntry> = Vec::new();
        core::mem::swap(&mut entries, &mut self.entries);
        entries.push(entry);
        assert(entries.deep_view() =~= before.push(target));
        self.entries = entries;
        true
    }
}

} // verus!
