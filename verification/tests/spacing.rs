use determinishtic::prompt::{
    is_closing_punctuation, is_space_suppressing_end, is_whitespace_char, render_segments, Segment,
};

fn texts(parts: &[&str]) -> Vec<Segment> {
    parts.iter().map(|p| Segment::Text(p.to_string())).collect()
}

fn auto(parts: &[&str]) -> String {
    render_segments(&texts(parts), false)
}

#[test]
fn hello_world_gets_one_blank() {
    assert_eq!(auto(&["Hello", "world"]), "Hello world");
}

#[test]
fn two_letters_get_one_blank() {
    assert_eq!(auto(&["a", "b"]), "a b");
}

#[test]
fn no_blank_before_exclamation_mark() {
    assert_eq!(auto(&["Hi", "!"]), "Hi!");
}

#[test]
fn no_blank_after_opening_bracket() {
    assert_eq!(auto(&["(", "x"]), "(x");
    assert_eq!(auto(&["[", "x"]), "[x");
    assert_eq!(auto(&["{", "x"]), "{x");
}

#[test]
fn comma_attaches_and_is_followed_by_a_blank() {
    assert_eq!(auto(&["Hello", ",", "world"]), "Hello, world");
}

#[test]
fn every_closing_punctuation_attaches() {
    for p in [".", ",", ":", ";", "!", "?"] {
        assert_eq!(auto(&["word", p]), format!("word{p}"));
    }
}

#[test]
fn other_punctuation_is_spaced() {
    assert_eq!(auto(&["a", ")"]), "a )");
    assert_eq!(auto(&["a", "-"]), "a -");
}

#[test]
fn no_blank_after_whitespace() {
    assert_eq!(auto(&["a ", "b"]), "a b");
    assert_eq!(auto(&["a\t", "b"]), "a\tb");
    assert_eq!(auto(&["a\n", "b"]), "a\nb");
}

#[test]
fn no_blank_after_other_whitespace() {
    assert_eq!(auto(&["a\r", "b"]), "a\rb");
    assert_eq!(auto(&["a\u{a0}", "b"]), "a\u{a0}b");
    assert_eq!(auto(&["a\u{3000}", "b"]), "a\u{3000}b");
    assert_eq!(auto(&["a\u{2028}", "b"]), "a\u{2028}b");
}

#[test]
fn lookalikes_of_whitespace_are_spaced() {
    assert_eq!(auto(&["a\u{200b}", "b"]), "a\u{200b} b");
    assert_eq!(auto(&["a\u{180e}", "b"]), "a\u{180e} b");
    assert_eq!(auto(&["a_", "b"]), "a_ b");
}

#[test]
fn whitespace_is_what_the_standard_library_calls_whitespace() {
    for n in 0..=0x10ffff_u32 {
        if let Some(c) = char::from_u32(n) {
            assert_eq!(is_whitespace_char(c), c.is_whitespace(), "U+{n:04X}");
            let opening = c == '(' || c == '[' || c == '{';
            assert_eq!(is_space_suppressing_end(c), c.is_whitespace() || opening, "U+{n:04X}");
        }
    }
}

#[test]
fn only_the_first_character_of_the_text_counts() {
    assert_eq!(auto(&["a", "b."]), "a b.");
    assert_eq!(auto(&["a", ".b"]), "a.b");
}

#[test]
fn no_segments_render_to_nothing() {
    assert_eq!(render_segments(&Vec::new(), false), "");
    assert_eq!(render_segments(&Vec::new(), true), "");
}

#[test]
fn first_segment_is_never_preceded_by_a_blank() {
    assert_eq!(auto(&["x"]), "x");
}

#[test]
fn empty_text_after_content_still_gets_its_blank() {
    assert_eq!(auto(&["a", ""]), "a ");
    assert_eq!(auto(&["a", "", "b"]), "a b");
}

#[test]
fn empty_first_segments_leave_the_output_empty() {
    assert_eq!(auto(&["", "", "b"]), "b");
}

#[test]
fn explicit_spacing_inserts_nothing() {
    assert_eq!(render_segments(&texts(&["a", "b"]), true), "ab");
    assert_eq!(render_segments(&texts(&["Hello", "world", "!"]), true), "Helloworld!");
}

#[test]
fn rendering_twice_gives_the_same_prompt() {
    let segments = vec![
        Segment::Text("Summarize".to_string()),
        Segment::ToolReference("fetch".to_string()),
        Segment::Text(", please".to_string()),
    ];
    let first = render_segments(&segments, false);
    let second = render_segments(&segments, false);
    assert_eq!(first, second);
    assert_eq!(first, "Summarize<mcp_tool>fetch</mcp_tool>, please");
}

#[test]
fn tool_reference_renders_as_marker_in_both_modes() {
    let segments = vec![Segment::ToolReference("foo".to_string())];
    assert_eq!(render_segments(&segments, false), "<mcp_tool>foo</mcp_tool>");
    assert_eq!(render_segments(&segments, true), "<mcp_tool>foo</mcp_tool>");
}

#[test]
fn tool_reference_is_appended_without_a_blank() {
    let segments = vec![
        Segment::Text("use".to_string()),
        Segment::ToolReference("foo".to_string()),
        Segment::Text("now".to_string()),
    ];
    assert_eq!(render_segments(&segments, false), "use<mcp_tool>foo</mcp_tool> now");
    assert_eq!(render_segments(&segments, true), "use<mcp_tool>foo</mcp_tool>now");
}

#[test]
fn text_after_a_leading_tool_reference_is_spaced() {
    let segments = vec![
        Segment::ToolReference("foo".to_string()),
        Segment::Text("x".to_string()),
    ];
    assert_eq!(render_segments(&segments, false), "<mcp_tool>foo</mcp_tool> x");
}

#[test]
fn multibyte_text_is_judged_by_characters() {
    assert_eq!(auto(&["caf\u{e9}", "\u{e9}t\u{e9}"]), "caf\u{e9} \u{e9}t\u{e9}");
    assert_eq!(auto(&["\u{4f60}\u{597d}", "!"]), "\u{4f60}\u{597d}!");
}

#[test]
fn character_classes() {
    for c in [' ', '\t', '\n', '(', '[', '{'] {
        assert!(is_space_suppressing_end(c));
    }
    for c in ['a', ')', '.', '>', ']', '}'] {
        assert!(!is_space_suppressing_end(c));
    }
    for c in ['.', ',', ':', ';', '!', '?'] {
        assert!(is_closing_punctuation(c));
    }
    for c in ['a', ' ', '(', ')', '-'] {
        assert!(!is_closing_punctuation(c));
    }
}
