//! The segment model and the spacing engine that renders it into one prompt.

use vstd::prelude::*;
use vstd::string::*;

verus! {

/// One atomic piece of a prompt.
#[derive(Debug)]
pub enum Segment {
    /// Literal text, rendered verbatim.
    Text(String),
    /// A reference to the tool of this name, rendered as an inline marker.
    ToolReference(String),
}

/// The mathematical value of a [`Segment`].
pub enum SegmentView {
    Text(Seq<char>),
    ToolReference(Seq<char>),
}

impl View for Segment {
    type V = SegmentView;

    open spec fn view(&self) -> SegmentView {
        match self {
            Segment::Text(t) => SegmentView::Text(t@),
            Segment::ToolReference(name) => SegmentView::ToolReference(name@),
        }
    }
}

impl DeepView for Segment {
    type V = SegmentView;

    open spec fn deep_view(&self) -> SegmentView {
        self@
    }
}

/// Whether `c` is whitespace, that is, has the Unicode property White_Space:
/// the controls from tab to carriage return, the blank, and the spaces and
/// separators beyond ASCII.
pub open spec fn is_whitespace(c: char) -> bool {
    let n = c as u32;
    ||| 0x09 <= n <= 0x0d
    ||| n == 0x20
    ||| n == 0x85
    ||| n == 0xa0
    ||| n == 0x1680
    ||| 0x2000 <= n <= 0x200a
    ||| n == 0x2028
    ||| n == 0x2029
    ||| n == 0x202f
    ||| n == 0x205f
    ||| n == 0x3000
}

/// Whether `c` is an opening bracket.
pub open spec fn is_opening_bracket(c: char) -> bool {
    c == '(' || c == '[' || c == '{'
}

/// Characters after which no separator is inserted: whitespace and the
/// opening brackets.
pub open spec fn suppresses_space_after(c: char) -> bool {
    is_whitespace(c) || is_opening_bracket(c)
}

/// Closing punctuation, before which no separator is inserted.
pub open spec fn suppresses_space_before(c: char) -> bool {
    c == '.' || c == ',' || c == ':' || c == ';' || c == '!' || c == '?'
}

/// Whether a single blank goes between the output accumulated so far and the
/// text that follows it under automatic spacing. Nothing is ever inserted in
/// front of an empty output, which covers the first segment.
pub open spec fn needs_space(acc: Seq<char>, text: Seq<char>) -> bool {
    &&& acc.len() > 0
    &&& !suppresses_space_after(acc.last())
    &&& !(text.len() > 0 && suppresses_space_before(text[0]))
}

/// The inline marker that stands for the tool `name`.
pub open spec fn tool_marker(name: Seq<char>) -> Seq<char> {
    "<mcp_tool>"@ + name + "</mcp_tool>"@
}

/// The output after one more segment: a tool reference adds its marker with
/// no spacing on either side; text adds itself, behind a single blank where
/// automatic spacing asks for one.
pub open spec fn append_segment(acc: Seq<char>, segment: SegmentView, explicit_spacing: bool) -> Seq<
    char,
> {
    match segment {
        SegmentView::ToolReference(name) => acc + tool_marker(name),
        SegmentView::Text(text) => if !explicit_spacing && needs_space(acc, text) {
            acc + seq![' '] + text
        } else {
            acc + text
        },
    }
}

/// The prompt that a list of segments renders to: the segments in order, each
/// added to what the ones before it rendered to.
pub open spec fn render(segments: Seq<SegmentView>, explicit_spacing: bool) -> Seq<char>
    decreases segments.len(),
{
    if segments.len() == 0 {
        Seq::empty()
    } else {
        append_segment(render(segments.drop_last(), explicit_spacing), segments.last(), explicit_spacing)
    }
}

/// What a segment contributes when nothing is inserted around it.
pub open spec fn plain(segment: SegmentView) -> Seq<char> {
    match segment {
        SegmentView::Text(text) => text,
        SegmentView::ToolReference(name) => tool_marker(name),
    }
}

/// The plain contributions of all segments, one after the other.
pub open spec fn concat_plain(segments: Seq<SegmentView>) -> Seq<char>
    decreases segments.len(),
{
    if segments.len() == 0 {
        Seq::empty()
    } else {
        concat_plain(segments.drop_last()) + plain(segments.last())
    }
}

/// Rendering depends on nothing but the segment list and the spacing flag:
/// equal inputs render to equal prompts, however often they are rendered.
pub proof fn lemma_render_is_deterministic(
    a: Seq<SegmentView>,
    b: Seq<SegmentView>,
    explicit_a: bool,
    explicit_b: bool,
)
    requires
        a =~= b,
        explicit_a == explicit_b,
    ensures
        render(a, explicit_a) == render(b, explicit_b),
{
}

/// Appending a segment to a list extends what the list rendered to and leaves
/// the part already rendered untouched.
pub proof fn lemma_render_push(segments: Seq<SegmentView>, segment: SegmentView, explicit_spacing: bool)
    ensures
        render(segments.push(segment), explicit_spacing) == append_segment(
            render(segments, explicit_spacing),
            segment,
            explicit_spacing,
        ),
{
    let longer = segments.push(segment);
    assert(longer.drop_last() =~= segments);
    assert(longer.last() == segment);
}

/// No segments render to the empty prompt, in either spacing mode.
pub proof fn lemma_render_empty(explicit_spacing: bool)
    ensures
        render(Seq::<SegmentView>::empty(), explicit_spacing) == Seq::<char>::empty(),
{
}

/// With explicit spacing nothing is inserted anywhere: the prompt is the
/// segments' own text and markers, one directly after the other.
pub proof fn lemma_explicit_spacing_inserts_nothing(segments: Seq<SegmentView>)
    ensures
        render(segments, true) == concat_plain(segments),
    decreases segments.len(),
{
    if segments.len() > 0 {
        lemma_explicit_spacing_inserts_nothing(segments.drop_last());
    }
}

/// A tool reference renders as its marker, which holds the tool's name
/// between the opening and the closing tag, directly behind what came before
/// it and in both spacing modes alike.
pub proof fn lemma_tool_reference_renders_marker(
    segments: Seq<SegmentView>,
    name: Seq<char>,
    explicit_spacing: bool,
)
    ensures
        render(segments.push(SegmentView::ToolReference(name)), explicit_spacing) == render(
            segments,
            explicit_spacing,
        ) + tool_marker(name),
        tool_marker(name) == "<mcp_tool>"@ + name + "</mcp_tool>"@,
        tool_marker(name).subrange(10, 10 + name.len() as int) == name,
{
    lemma_render_push(segments, SegmentView::ToolReference(name), explicit_spacing);
    reveal_strlit("<mcp_tool>");
    reveal_strlit("</mcp_tool>");
    assert(tool_marker(name).subrange(10, 10 + name.len() as int) =~= name);
}

/// Whether every segment is text that ends in a newline.
pub open spec fn all_lines(segments: Seq<SegmentView>) -> bool {
    forall|i: int|
        0 <= i < segments.len() ==> (#[trigger] segments[i] matches SegmentView::Text(text)
            && text.len() > 0 && text.last() == '\n')
}

/// Lines render verbatim: between segments that each end in a newline no
/// blank is inserted, in either spacing mode.
pub proof fn lemma_lines_render_verbatim(segments: Seq<SegmentView>, explicit_spacing: bool)
    requires
        all_lines(segments),
    ensures
        render(segments, explicit_spacing) == concat_plain(segments),
        segments.len() > 0 ==> render(segments, explicit_spacing).len() > 0 && render(
            segments,
            explicit_spacing,
        ).last() == '\n',
    decreases segments.len(),
{
    if segments.len() > 0 {
        let front = segments.drop_last();
        assert forall|i: int| 0 <= i < front.len() implies (#[trigger] front[i] matches SegmentView::Text(
            text,
        ) && text.len() > 0 && text.last() == '\n') by {
            assert(front[i] == segments[i]);
        }
        lemma_lines_render_verbatim(front, explicit_spacing);
        assert(segments[segments.len() - 1] is Text);
    }
}

/// What a list of segments renders to begins with what any of its prefixes
/// renders to: segments that come later never change the text before them.
pub proof fn lemma_render_prefix(segments: Seq<SegmentView>, n: int, explicit_spacing: bool)
    requires
        0 <= n <= segments.len(),
    ensures
        render(segments.take(n), explicit_spacing).is_prefix_of(render(segments, explicit_spacing)),
    decreases segments.len() - n,
{
    if n == segments.len() {
        assert(segments.take(n) =~= segments);
    } else {
        let front = segments.drop_last();
        assert(front.take(n) =~= segments.take(n));
        lemma_render_prefix(front, n, explicit_spacing);
        let before = render(front, explicit_spacing);
        let after = render(segments, explicit_spacing);
        assert(before.is_prefix_of(after));
    }
}

/// The last character of a string, if it has one.
fn last_char(text: &str) -> (r: Option<char>)
    ensures
        r == (if text@.len() > 0 {
            Some(text@.last())
        } else {
            None
        }),
{
    let n = text.unicode_len();
    if n == 0 {
        None
    } else {
        Some(text.get_char(n - 1))
    }
}

/// The first character of a string, if it has one.
fn first_char(text: &str) -> (r: Option<char>)
    ensures
        r == (if text@.len() > 0 {
            Some(text@[0])
        } else {
            None
        }),
{
    if text.unicode_len() == 0 {
        None
    } else {
        Some(text.get_char(0))
    }
}

/// Whether `c` is whitespace.
pub fn is_whitespace_char(c: char) -> (r: bool)
    ensures
        r == is_whitespace(c),
{
    let n: u32 = c as u32;
    (0x09 <= n && n <= 0x0d) || n == 0x20 || n == 0x85 || n == 0xa0 || n == 0x1680 || (0x2000 <= n
        && n <= 0x200a) || n == 0x2028 || n == 0x2029 || n == 0x202f || n == 0x205f || n == 0x3000
}

/// Whether no separator is inserted after a prompt that ends in `c`.
pub fn is_space_suppressing_end(c: char) -> (r: bool)
    ensures
        r == suppresses_space_after(c),
{
    is_whitespace_char(c) || c == '(' || c == '[' || c == '{'
}

/// Whether no separator is inserted before text that begins with `c`.
pub fn is_closing_punctuation(c: char) -> (r: bool)
    ensures
        r == suppresses_space_before(c),
{
    c == '.' || c == ',' || c == ':' || c == ';' || c == '!' || c == '?'
}

/// Adds one segment to the prompt rendered so far. `last` is the last
/// character of `out`, kept beside it so that the end of the output need not
/// be searched for again.
fn push_segment(out: &mut String, last: &mut Option<char>, segment: &Segment, explicit_spacing: bool)
    requires
        *old(last) == (if old(out)@.len() > 0 {
            Some(old(out)@.last())
        } else {
            None
        }),
    ensures
        final(out)@ == append_segment(old(out)@, segment@, explicit_spacing),
        *final(last) == (if final(out)@.len() > 0 {
            Some(final(out)@.last())
        } else {
            None
        }),
{
    match segment {
        Segment::ToolReference(name) => {
            proof {
                reveal_strlit("<mcp_tool>");
                reveal_strlit("</mcp_tool>");
            }
            out.append("<mcp_tool>");
            out.append(name.as_str());
            out.append("</mcp_tool>");
            *last = Some('>');
            assert(out@ =~= old(out)@ + tool_marker(name@));
        },
        Segment::Text(text) => {
            let text = text.as_str();
            let head = first_char(text);
            let tail = last_char(text);
            let space = !explicit_spacing && match *last {
                None => false,
                Some(c) => !is_space_suppressing_end(c) && match head {
                    None => true,
                    Some(h) => !is_closing_punctuation(h),
                },
            };
            assert(space == (!explicit_spacing && needs_space(old(out)@, text@)));
            if space {
                proof {
                    reveal_strlit(" ");
                }
                out.append(" ");
                assert(out@ =~= old(out)@ + seq![' ']);
                *last = Some(' ');
            }
            out.append(text);
            if let Some(c) = tail {
                *last = Some(c);
            }
        },
    }
}

/// Renders a list of segments into one prompt, inserting single blanks under
/// the automatic spacing rule unless `explicit_spacing` is set. Rendering
/// never fails; no segments give the empty prompt.
pub fn render_segments(segments: &Vec<Segment>, explicit_spacing: bool) -> (r: String)
    ensures
        r@ == render(segments.deep_view(), explicit_spacing),
{
    let ghost all = segments.deep_view();
    let mut out = String::new();
    let mut last: Option<char> = None;
    let mut i: usize = 0;
    while i < segments.len()
        invariant
            i <= segments.len(),
            all == segments.deep_view(),
            all.len() == segments.len(),
            out@ == render(all.take(i as int), explicit_spacing),
            last == (if out@.len() > 0 {
                Some(out@.last())
            } else {
                None
            }),
        decreases segments.len() - i,
    {
        proof {
            assert(all[i as int] == segments[i as int]@);
            assert(all.take(i as int + 1) =~= all.take(i as int).push(all[i as int]));
            lemma_render_push(all.take(i as int), all[i as int], explicit_spacing);
        }
        push_segment(&mut out, &mut last, &segments[i], explicit_spacing);
        i += 1;
    }
    assert(all.take(i as int) =~= all);
    out
}

} // verus!
