//! The builder that composes a prompt and registers the tools it mentions.

use crate::error::{Error, ErrorView};
use crate::prompt::{
    all_lines, concat_plain, lemma_lines_render_verbatim, lemma_render_prefix, render,
    render_segments, Segment, SegmentView,
};
use crate::registry::{
    has_tool, lemma_register, names_unique, register, ToolEntry, ToolEntryView, ToolRegistry,
};
use crate::session::{initial_session, ThinkSession};
use core::marker::PhantomData;
use vstd::prelude::*;
use vstd::string::*;

verus! {

/// The name reserved for the completion tool.
pub const RETURN_RESULT_TOOL: &'static str = "return_result";

/// What the agent is told of the completion tool.
pub const RETURN_RESULT_DESCRIPTION: &'static str =
    "Return the final result. Call this when you have completed the task.";

/// The name under which a session's tools are served.
pub const SERVER_NAME: &'static str = "patchwork";

/// The instructions that the tool server hands to the agent.
pub const SERVER_INSTRUCTIONS: &'static str =
    "You have access to tools. Call return_result when done.";

/// The lines of the fixed preamble, without their line ends.
pub open spec fn preamble_lines() -> Seq<Seq<char>> {
    seq![
        "Please complete the following task to the best of your ability,"@,
        "No further instructions will be given,"@,
        "so do your best to interpret the instructions without further feedback from the user,"@,
        "making use of the tools you have available."@,
        ""@,
        "IMPORTANT: When complete, invoke the `return_result` tool with the requested result."@,
        ""@,
    ]
}

/// The segments that every prompt starts with: each preamble line as text
/// that ends in a newline.
pub open spec fn preamble() -> Seq<SegmentView> {
    Seq::new(preamble_lines().len(), |i: int| SegmentView::Text(preamble_lines()[i] + seq!['\n']))
}

/// The preamble as it stands at the head of every prompt: its lines, each
/// ended by a newline, with nothing between them.
pub open spec fn preamble_text() -> Seq<char> {
    concat_plain(preamble())
}

/// The preamble renders to its own text in both spacing modes.
pub proof fn lemma_preamble_renders_verbatim(explicit_spacing: bool)
    ensures
        render(preamble(), explicit_spacing) == preamble_text(),
{
    assert(all_lines(preamble())) by {
        assert forall|i: int| 0 <= i < preamble().len() implies (#[trigger] preamble()[i] matches SegmentView::Text(
            text,
        ) && text.len() > 0 && text.last() == '\n') by {
            let text = preamble_lines()[i] + seq!['\n'];
            assert(preamble()[i] == SegmentView::Text(text));
            assert(text.last() == '\n');
        }
    }
    lemma_lines_render_verbatim(preamble(), explicit_spacing);
}

/// Every prompt whose segments begin with the preamble begins with the
/// preamble's text, whatever follows and in both spacing modes.
pub proof fn lemma_prompt_begins_with_preamble(v: ThinkBuilderView)
    requires
        preamble().is_prefix_of(v.segments),
    ensures
        preamble_text().is_prefix_of(v.prompt()),
{
    let n = preamble().len() as int;
    assert(v.segments.take(n) =~= preamble());
    lemma_render_prefix(v.segments, n, v.explicit_spacing);
    lemma_preamble_renders_verbatim(v.explicit_spacing);
}

/// The entry under which the completion tool is registered.
pub open spec fn completion_entry() -> ToolEntryView {
    ToolEntryView { name: RETURN_RESULT_TOOL@, description: RETURN_RESULT_DESCRIPTION@ }
}

/// The mathematical value of a [`ThinkBuilder`].
pub struct ThinkBuilderView {
    /// The prompt's segments in order.
    pub segments: Seq<SegmentView>,
    /// The registered tools in order of registration.
    pub tools: Seq<ToolEntryView>,
    /// Whether automatic spacing is switched off.
    pub explicit_spacing: bool,
    /// The first registration that was refused, if any was.
    pub refused: Option<ErrorView>,
}

impl ThinkBuilderView {
    /// This state with one more text segment.
    pub open spec fn with_text(self, text: Seq<char>) -> ThinkBuilderView {
        ThinkBuilderView { segments: self.segments.push(SegmentView::Text(text)), ..self }
    }

    /// Why a tool cannot be registered under `name` in this state, if it
    /// cannot: the name is the reserved one, or it is taken.
    pub open spec fn refusal(self, name: Seq<char>) -> Option<ErrorView> {
        if name == RETURN_RESULT_TOOL@ {
            Some(ErrorView::ReservedToolName)
        } else if has_tool(self.tools, name) {
            Some(ErrorView::DuplicateTool(name))
        } else {
            None
        }
    }

    /// This state with a refusal noted. The first refusal is the one kept.
    pub open spec fn refuse(self, reason: ErrorView) -> ThinkBuilderView {
        ThinkBuilderView {
            refused: if self.refused is Some {
                self.refused
            } else {
                Some(reason)
            },
            ..self
        }
    }

    /// This state after a tool is registered with a reference to it in the
    /// prompt. A refused registration changes neither tools nor segments.
    pub open spec fn with_tool(self, name: Seq<char>, description: Seq<char>) -> ThinkBuilderView {
        match self.refusal(name) {
            Some(reason) => self.refuse(reason),
            None => ThinkBuilderView {
                segments: self.segments.push(SegmentView::ToolReference(name)),
                tools: self.tools.push(ToolEntryView { name, description }),
                ..self
            },
        }
    }

    /// This state after a tool is registered without a mention in the
    /// prompt. A refused registration changes no tools.
    pub open spec fn with_hidden_tool(self, name: Seq<char>, description: Seq<char>) -> ThinkBuilderView {
        match self.refusal(name) {
            Some(reason) => self.refuse(reason),
            None => ThinkBuilderView {
                tools: self.tools.push(ToolEntryView { name, description }),
                ..self
            },
        }
    }

    /// The prompt that this state renders to.
    pub open spec fn prompt(self) -> Seq<char> {
        render(self.segments, self.explicit_spacing)
    }

    /// Whether the tool names are in order: none twice, none the reserved
    /// one.
    pub open spec fn tools_in_order(self) -> bool {
        names_unique(self.tools) && !has_tool(self.tools, RETURN_RESULT_TOOL@)
    }
}

/// Registering tools keeps the names in order: whatever is registered, no
/// name is held twice and the reserved name is never among them.
pub proof fn lemma_tools_stay_in_order(v: ThinkBuilderView, name: Seq<char>, description: Seq<char>)
    requires
        v.tools_in_order(),
    ensures
        v.with_tool(name, description).tools_in_order(),
        v.with_hidden_tool(name, description).tools_in_order(),
        v.with_tool(name, description).tools == v.with_hidden_tool(name, description).tools,
        v.with_tool(name, description).refused == v.with_hidden_tool(name, description).refused,
        v.with_hidden_tool(name, description).segments == v.segments,
        names_unique(v.tools.push(completion_entry())),
{
    let entry = ToolEntryView { name, description };
    if v.refusal(name) is None {
        assert(register(v.tools, entry) == v.tools.push(entry));
        lemma_register(v.tools, entry);
    }
    assert(register(v.tools, completion_entry()) == v.tools.push(completion_entry()));
    lemma_register(v.tools, completion_entry());
}

/// Builder for composing a prompt with embedded tools. Each call consumes the
/// builder and hands back the next state; `Output` is the type of the result
/// that the session is to produce.
pub struct ThinkBuilder<Output> {
    segments: Vec<Segment>,
    tools: ToolRegistry,
    explicit_spacing: bool,
    refused: Option<Error>,
    phantom: PhantomData<Output>,
}

impl<Output> View for ThinkBuilder<Output> {
    type V = ThinkBuilderView;

    closed spec fn view(&self) -> ThinkBuilderView {
        ThinkBuilderView {
            segments: self.segments.deep_view(),
            tools: self.tools@,
            explicit_spacing: self.explicit_spacing,
            refused: match self.refused {
                Some(e) => Some(e@),
                None => None,
            },
        }
    }
}

impl<Output> ThinkBuilder<Output> {
    #[verifier::type_invariant]
    spec fn well_formed(self) -> bool {
        &&& preamble().is_prefix_of(self.segments.deep_view())
        &&& names_unique(self.tools@)
        &&& !has_tool(self.tools@, RETURN_RESULT_TOOL@)
    }
}

/// The text form of a value under its `Debug` implementation, as
/// `format!("{:?}", value)` gives it. Nothing is claimed of the text: what it
/// holds is up to the implementation of `Debug` for `T`.
#[verifier::external_body]
fn debug_text<T: core::fmt::Debug>(value: &T) -> (r: String) {
    format!("{:?}", value)
}

impl<Output> ThinkBuilder<Output> {
    /// A builder that holds the fixed preamble, no tools, and automatic
    /// spacing.
    pub fn new() -> (r: Self)
        ensures
            r@.segments == preamble(),
            r@.tools == Seq::<ToolEntryView>::empty(),
            !r@.explicit_spacing,
            r@.refused is None,
    {
        let mut segments: Vec<Segment> = Vec::new();
        push_line(&mut segments, "Please complete the following task to the best of your ability,");
        push_line(&mut segments, "No further instructions will be given,");
        push_line(
            &mut segments,
            "so do your best to interpret the instructions without further feedback from the user,",
        );
        push_line(&mut segments, "making use of the tools you have available.");
        push_line(&mut segments, "");
        push_line(
            &mut segments,
            "IMPORTANT: When complete, invoke the `return_result` tool with the requested result.",
        );
        push_line(&mut segments, "");
        assert(segments.deep_view() =~= preamble());
        ThinkBuilder {
            segments,
            tools: ToolRegistry::new(),
            explicit_spacing: false,
            refused: None,
            phantom: PhantomData,
        }
    }

    /// Adds literal text to the prompt.
    pub fn text(self, text: &str) -> (r: Self)
        ensures
            r@ == self@.with_text(text@),
    {
        proof {
            use_type_invariant(&self);
        }
        let mut segments = self.segments;
        let ghost before = segments.deep_view();
        segments.push(Segment::Text(text.to_owned()));
        assert(segments.deep_view() =~= before.push(SegmentView::Text(text@)));
        ThinkBuilder {
            segments,
            tools: self.tools,
            explicit_spacing: self.explicit_spacing,
            refused: self.refused,
            phantom: PhantomData,
        }
    }

    /// Adds literal text to the prompt, followed by a newline.
    pub fn textln(self, text: &str) -> (r: Self)
        ensures
            r@ == self@.with_text(text@ + seq!['\n']),
    {
        let line = with_newline(text);
        self.text(line.as_str())
    }

    /// Adds the text that `value` displays as.
    pub fn display<T: core::fmt::Display>(self, value: &T) -> (r: Self)
        ensures
            exists|shown: String|
                to_string_from_display_ensures::<T>(value, shown) && r@ == self@.with_text(shown@),
    {
        let shown = value.to_string();
        self.text(shown.as_str())
    }

    /// Adds the text of `value` under its `Debug` implementation.
    pub fn debug<T: core::fmt::Debug>(self, value: &T) -> (r: Self)
        ensures
            exists|shown: Seq<char>| r@ == self@.with_text(shown),
    {
        let shown = debug_text(value);
        self.text(shown.as_str())
    }

    /// Switches automatic spacing off: the prompt is then the segments with
    /// nothing inserted between them.
    pub fn explicit_spacing(self) -> (r: Self)
        ensures
            r@ == (ThinkBuilderView { explicit_spacing: true, ..self@ }),
    {
        proof {
            use_type_invariant(&self);
        }
        ThinkBuilder {
            segments: self.segments,
            tools: self.tools,
            explicit_spacing: true,
            refused: self.refused,
            phantom: PhantomData,
        }
    }

    /// Registers a tool and embeds a reference to it in the prompt.
    ///
    /// The reserved name and a name that is already registered are refused:
    /// the builder then stays as it is, but for noting the first refusal,
    /// which `into_session` reports.
    pub fn tool(self, name: &str, description: &str) -> (r: Self)
        ensures
            r@ == self@.with_tool(name@, description@),
    {
        proof {
            use_type_invariant(&self);
        }
        match self.judge(name) {
            Some(reason) => self.note_refusal(reason),
            None => {
                let mut segments = self.segments;
                let ghost before = segments.deep_view();
                segments.push(Segment::ToolReference(name.to_owned()));
                assert(segments.deep_view() =~= before.push(SegmentView::ToolReference(name@)));
                let mut tools = self.tools;
                proof {
                    lemma_tools_after_push(tools@, name@, description@);
                }
                tools.register(ToolEntry::new(name, description));
                ThinkBuilder {
                    segments,
                    tools,
                    explicit_spacing: self.explicit_spacing,
                    refused: self.refused,
                    phantom: PhantomData,
                }
            },
        }
    }

    /// Registers a tool without mentioning it in the prompt.
    ///
    /// The reserved name and a name that is already registered are refused:
    /// the builder then stays as it is, but for noting the first refusal,
    /// which `into_session` reports.
    pub fn define_tool(self, name: &str, description: &str) -> (r: Self)
        ensures
            r@ == self@.with_hidden_tool(name@, description@),
    {
        proof {
            use_type_invariant(&self);
        }
        match self.judge(name) {
            Some(reason) => self.note_refusal(reason),
            None => {
                let mut tools = self.tools;
                proof {
                    lemma_tools_after_push(tools@, name@, description@);
                }
                tools.register(ToolEntry::new(name, description));
                ThinkBuilder {
                    segments: self.segments,
                    tools,
                    explicit_spacing: self.explicit_spacing,
                    refused: self.refused,
                    phantom: PhantomData,
                }
            },
        }
    }

    /// Why a tool cannot be registered under `name`, if it cannot.
    fn judge(&self, name: &str) -> (r: Option<Error>)
        ensures
            match r {
                Some(e) => self@.refusal(name@) == Some(e@),
                None => self@.refusal(name@) is None,
            },
    {
        if same_text(name, RETURN_RESULT_TOOL) {
            Some(Error::ReservedToolName)
        } else if self.tools.contains(name) {
            Some(Error::DuplicateTool(name.to_owned()))
        } else {
            None
        }
    }

    /// Notes a refusal, unless one is noted already.
    fn note_refusal(self, reason: Error) -> (r: Self)
        ensures
            r@ == self@.refuse(reason@),
    {
        proof {
            use_type_invariant(&self);
        }
        let refused = match self.refused {
            Some(first) => Some(first),
            None => Some(reason),
        };
        ThinkBuilder {
            segments: self.segments,
            tools: self.tools,
            explicit_spacing: self.explicit_spacing,
            refused,
            phantom: PhantomData,
        }
    }

    /// The prompt as it will be sent: the segments in order under the
    /// spacing rule. It always begins with the preamble.
    pub fn build_prompt(&self) -> (r: String)
        ensures
            r@ == self@.prompt(),
            preamble_text().is_prefix_of(r@),
    {
        proof {
            use_type_invariant(self);
            lemma_prompt_begins_with_preamble(self@);
        }
        render_segments(&self.segments, self.explicit_spacing)
    }

    /// The registered tools: every name once, the reserved name never.
    pub fn tools(&self) -> (r: &ToolRegistry)
        ensures
            r@ == self@.tools,
            self@.tools_in_order(),
    {
        proof {
            use_type_invariant(self);
        }
        &self.tools
    }

    /// The segments added so far, the preamble first.
    pub fn segments(&self) -> (r: &Vec<Segment>)
        ensures
            r.deep_view() == self@.segments,
            preamble().is_prefix_of(self@.segments),
    {
        proof {
            use_type_invariant(self);
        }
        &self.segments
    }

    /// Whether automatic spacing is switched off.
    pub fn is_explicit_spacing(&self) -> (r: bool)
        ensures
            r == self@.explicit_spacing,
    {
        self.explicit_spacing
    }

    /// The first registration that was refused, if any was.
    pub fn refused(&self) -> (r: Option<&Error>)
        ensures
            match r {
                Some(e) => self@.refused == Some(e@),
                None => self@.refused is None,
            },
    {
        self.refused.as_ref()
    }

    /// Closes the builder: renders the prompt and registers the completion
    /// tool behind the caller's tools. If a registration was refused, the
    /// first refusal is the error, and nothing else is an error.
    pub fn into_session(self) -> (r: Result<ThinkSession<Output>, Error>)
        ensures
            match r {
                Ok(s) => self@.refused is None && s@ == initial_session::<Output>(
                    self@.prompt(),
                    self@.tools.push(completion_entry()),
                ) && preamble_text().is_prefix_of(s@.prompt) && names_unique(s@.tools),
                Err(e) => self@.refused == Some(e@),
            },
    {
        proof {
            use_type_invariant(&self);
        }
        let prompt = self.build_prompt();
        match self.refused {
            Some(reason) => Err(reason),
            None => {
                let mut tools = self.tools;
                tools.register(ToolEntry::new(RETURN_RESULT_TOOL, RETURN_RESULT_DESCRIPTION));
                Ok(ThinkSession::start(prompt, tools))
            },
        }
    }
}

/// What registering a new name, other than the reserved one, does to the
/// tools.
proof fn lemma_tools_after_push(tools: Seq<ToolEntryView>, name: Seq<char>, description: Seq<char>)
    requires
        !has_tool(tools, RETURN_RESULT_TOOL@),
        !has_tool(tools, name),
        name != RETURN_RESULT_TOOL@,
    ensures
        register(tools, ToolEntryView { name, description }) == tools.push(
            ToolEntryView { name, description },
        ),
        !has_tool(tools.push(ToolEntryView { name, description }), RETURN_RESULT_TOOL@),
{
    let after = tools.push(ToolEntryView { name, description });
    if has_tool(after, RETURN_RESULT_TOOL@) {
        let i = choose|i: int| 0 <= i < after.len() && (#[trigger] after[i]).name == RETURN_RESULT_TOOL@;
        if i < tools.len() {
            assert(tools[i].name == RETURN_RESULT_TOOL@);
        }
    }
}

/// Whether two strings hold the same text.
fn same_text(a: &str, b: &str) -> (r: bool)
    ensures
        r == (a@ == b@),
{
    a.to_owned() == b.to_owned()
}

/// The text followed by a single newline.
fn with_newline(text: &str) -> (r: String)
    ensures
        r@ == text@ + seq!['\n'],
{
    let mut line = text.to_owned();
    proof {
        reveal_strlit("\n");
    }
    line.append("\n");
    assert(line@ =~= text@ + seq!['\n']);
    line
}

/// Appends `text` and a newline to `segments` as one text segment.
fn push_line(segments: &mut Vec<Segment>, text: &str)
    ensures
        final(segments).deep_view() == old(segments).deep_view().push(
            SegmentView::Text(text@ + seq!['\n']),
        ),
{
    let ghost before = segments.deep_view();
    segments.push(Segment::Text(with_newline(text)));
    assert(segments.deep_view() =~= before.push(SegmentView::Text(text@ + seq!['\n'])));
}

} // verus!
