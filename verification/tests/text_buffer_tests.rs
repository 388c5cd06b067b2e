use clemitui::markdown::{
    can_render, is_bounded, takes, Cell, LineShape, LEVELS, MAX_RENDERED_CHARS, MAX_TABLE_SIZE,
    MIN_WRAP_WIDTH, NARROW_COLUMN,
};
use clemitui::text_buffer::{detect_terminal_width, finish_block, resolve_width, DEFAULT_WIDTH};
use clemitui::TextBuffer;

/// Removes escape sequences, so that only the content is left.
fn strip_ansi_for_test(s: &str) -> String {
    let mut result = String::new();
    let mut in_escape = false;
    for c in s.chars() {
        if c == '\x1b' {
            in_escape = true;
        } else if in_escape {
            if c.is_ascii_alphabetic() {
                in_escape = false;
            }
        } else {
            result.push(c);
        }
    }
    result
}

/// Renders `text` at `width` columns through a buffer of that width, having made sure
/// that the buffer asks the renderer for it. The block that comes back is the rendering
/// with the line feeds at its end replaced by two.
fn render_markdown(text: &str, width: usize) -> String {
    assert!(can_render(text, width), "{:?} is rendered at {}", text, width);
    let mut buffer = TextBuffer::with_width(width);
    buffer.push(text);
    buffer.flush().unwrap_or_default()
}

#[test]
fn test_text_buffer_accumulates() {
    let mut buffer = TextBuffer::new();

    buffer.push("Hello ");
    buffer.push("world!");

    let out = buffer.flush();
    assert!(out.is_some());
    assert!(out.unwrap().contains("Hello world!"));

    assert!(buffer.flush().is_none());
    assert!(buffer.is_empty());
}

#[test]
fn test_text_buffer_flush_empty() {
    let mut buffer = TextBuffer::new();
    assert!(buffer.is_empty());
    let out = buffer.flush();
    assert!(out.is_none());
}

#[test]
fn test_text_buffer_flush_normalizes_to_double_newline() {
    let mut buffer = TextBuffer::with_width(120);
    buffer.push("Hello world");
    let out = buffer.flush().unwrap();
    assert!(
        out.ends_with("\n\n"),
        "Should end with \\n\\n, got: {:?}",
        out
    );
    assert!(!out.ends_with("\n\n\n"), "Should not have triple newline");

    let mut buffer = TextBuffer::with_width(120);
    buffer.push("Hello world\n");
    let out = buffer.flush().unwrap();
    assert!(
        out.ends_with("\n\n"),
        "Should end with \\n\\n, got: {:?}",
        out
    );

    let mut buffer = TextBuffer::with_width(120);
    buffer.push("Hello world\n\n");
    let out = buffer.flush().unwrap();
    assert!(
        out.ends_with("\n\n"),
        "Should end with \\n\\n, got: {:?}",
        out
    );
    assert!(!out.ends_with("\n\n\n"), "Should not have triple newline");
}

#[test]
fn test_text_buffer_flush_returns_none_for_whitespace_only() {
    let mut buffer = TextBuffer::with_width(120);
    buffer.push("\n\n");
    let out = buffer.flush();
    assert!(out.is_none(), "Whitespace-only buffer should return None");
}

#[test]
fn test_text_buffer_default() {
    let buffer = TextBuffer::default();
    assert!(buffer.is_empty());
}

#[test]
fn test_text_buffer_with_width() {
    let buffer = TextBuffer::with_width(80);
    assert!(buffer.is_empty());
    assert_eq!(buffer.width(), Some(80));
}

#[test]
fn test_render_markdown_plain_text() {
    let rendered = render_markdown("plain text", 120);
    assert!(rendered.contains("plain text"));
}

#[test]
fn test_render_markdown_headers() {
    let rendered = render_markdown("# Header", 120);
    assert!(!rendered.is_empty());
    assert!(rendered.contains("Header"));
}

#[test]
fn test_render_markdown() {
    let rendered = render_markdown("**bold** and *italic*", 120);
    assert!(!rendered.is_empty());
    assert!(
        rendered.contains("\x1b["),
        "Expected ANSI codes for bold/italic formatting, got: {:?}",
        rendered
    );
    assert!(rendered.contains("bold"), "Should contain 'bold' text");
    assert!(rendered.contains("italic"), "Should contain 'italic' text");
}

#[test]
fn test_detect_terminal_width() {
    let width = detect_terminal_width();
    assert!(width > 0, "Width should be positive");
}

#[test]
fn test_wrapping_at_narrow_width() {
    let long_line = "This is a fairly long line that should definitely be wrapped when rendered at a narrow terminal width of forty columns.";
    let rendered = render_markdown(long_line, 40);
    let stripped = strip_ansi_for_test(&rendered);

    let lines: Vec<&str> = stripped.lines().collect();
    assert!(
        lines.len() > 1,
        "Long text should wrap at width 40, got {} line(s): {:?}",
        lines.len(),
        stripped
    );

    for line in &lines {
        assert!(
            line.len() <= 40,
            "Line exceeds width 40 ({} chars): {:?}",
            line.len(),
            line
        );
    }
}

#[test]
fn test_wrapping_preserves_content() {
    let text = "The quick brown fox jumps over the lazy dog. This sentence has enough words to wrap at various widths.";

    for width in [40, 60, 80, 120] {
        let rendered = render_markdown(text, width);
        let stripped = strip_ansi_for_test(&rendered);
        let joined = stripped
            .lines()
            .map(|l| l.trim_end())
            .collect::<Vec<_>>()
            .join(" ");

        assert!(
            joined.contains("quick brown fox"),
            "Content should be preserved at width {}: {:?}",
            width,
            stripped
        );
        assert!(
            joined.contains("lazy dog"),
            "Content should be preserved at width {}: {:?}",
            width,
            stripped
        );
    }
}

#[test]
fn test_wrapping_at_different_widths() {
    let text = "This is a sentence that is long enough to be wrapped at eighty columns but not at one hundred and twenty columns for sure.";

    let narrow = render_markdown(text, 40);
    let wide = render_markdown(text, 200);

    let narrow_lines = strip_ansi_for_test(&narrow).lines().count();
    let wide_lines = strip_ansi_for_test(&wide).lines().count();

    assert!(
        narrow_lines > wide_lines,
        "Narrow width ({} lines) should produce more lines than wide ({} lines)",
        narrow_lines,
        wide_lines
    );
}

#[test]
fn test_width_affects_flush_output() {
    let text = "This is a fairly long paragraph that should wrap differently depending on the configured width of the text buffer.";

    let mut narrow_buf = TextBuffer::with_width(40);
    narrow_buf.push(text);
    let narrow_out = narrow_buf.flush().unwrap();

    let mut wide_buf = TextBuffer::with_width(200);
    wide_buf.push(text);
    let wide_out = wide_buf.flush().unwrap();

    let narrow_lines = strip_ansi_for_test(&narrow_out).lines().count();
    let wide_lines = strip_ansi_for_test(&wide_out).lines().count();

    assert!(
        narrow_lines > wide_lines,
        "Narrow buffer ({} lines) should produce more lines than wide ({} lines)",
        narrow_lines,
        wide_lines
    );
}

#[test]
fn test_markdown_code_block_at_narrow_width() {
    let text = "```\nfn main() { println!(\"hello\"); }\n```";
    let rendered = render_markdown(text, 40);
    let stripped = strip_ansi_for_test(&rendered);

    assert!(
        stripped.contains("fn main()"),
        "Code block content should be preserved: {:?}",
        stripped
    );
}

#[test]
fn test_markdown_list_at_narrow_width() {
    let text = "- First item with some extra text that might wrap\n- Second item\n- Third item with even more text to test wrapping behavior at narrow widths";
    let rendered = render_markdown(text, 40);
    let stripped = strip_ansi_for_test(&rendered);

    assert!(stripped.contains("First item"), "Should contain first item");
    assert!(
        stripped.contains("Second item"),
        "Should contain second item"
    );
    assert!(stripped.contains("Third item"), "Should contain third item");
}

#[test]
fn finish_block_replaces_any_run_of_line_feeds_by_two() {
    for rendered in ["Hello", "Hello\n", "Hello\n\n", "Hello\n\n\n"] {
        assert_eq!(finish_block(rendered), Some("Hello\n\n".to_string()));
    }
}

#[test]
fn finish_block_keeps_line_feeds_inside_the_text() {
    assert_eq!(finish_block("a\n\nb\n"), Some("a\n\nb\n\n".to_string()));
    assert_eq!(finish_block("\na"), Some("\na\n\n".to_string()));
}

#[test]
fn finish_block_gives_nothing_for_line_feeds_alone() {
    assert_eq!(finish_block(""), None);
    assert_eq!(finish_block("\n"), None);
    assert_eq!(finish_block("\n\n\n"), None);
}

#[test]
fn finish_block_keeps_other_whitespace() {
    assert_eq!(finish_block(" \n"), Some(" \n\n".to_string()));
    assert_eq!(finish_block("é\n"), Some("é\n\n".to_string()));
}

#[test]
fn resolve_width_prefers_the_configured_width() {
    assert_eq!(resolve_width(Some(80), None), 80);
    assert_eq!(resolve_width(Some(80), Some(0)), 80);
    assert_eq!(resolve_width(Some(80), Some(132)), 80);
}

#[test]
fn resolve_width_falls_back_when_no_width_is_detected() {
    assert_eq!(DEFAULT_WIDTH, 120);
    assert_eq!(resolve_width(None, None), 120);
    assert_eq!(resolve_width(None, Some(0)), 120);
    assert_eq!(resolve_width(None, Some(1)), 1);
    assert_eq!(resolve_width(None, Some(132)), 132);
    assert_eq!(resolve_width(None, Some(u16::MAX)), 65535);
}

#[test]
fn render_width_is_the_configured_width() {
    assert_eq!(TextBuffer::with_width(1).render_width(), 1);
    assert_eq!(TextBuffer::with_width(80).render_width(), 80);
    assert!(TextBuffer::new().render_width() > 0);
}

#[test]
fn can_render_takes_ordinary_text_at_every_width() {
    assert_eq!((MIN_WRAP_WIDTH, NARROW_COLUMN, LEVELS), (3, 3, 256));
    assert_eq!((MAX_RENDERED_CHARS, MAX_TABLE_SIZE), (1 << 30, 1 << 20));
    for width in [1, 2, 3, 4, 10, 14, 15, 40, 200] {
        assert!(can_render("", width));
        assert!(can_render("Hello **world**, this is a paragraph.\n\nAnd one more.", width));
        assert!(can_render("# Header\n> quote\n```\ncode\n```\n---", width));
        assert!(can_render("a - b * c + d, 3 times 4, and 2024.", width));
        assert!(can_render("|a|b|\n|-|-|\n| 12 | x |\n|---|:-:|", width));
        assert!(can_render("|3.5|4.2|", width));
        assert!(can_render("| 1.5 | 2) |", width));
        assert!(can_render("3.14 is pi", width));
        assert!(can_render("a | - b", width));
        assert!(can_render("-x\n*emphasis* at the start\n+1", width));
        assert!(can_render("     - five spaces make this code", width));
        assert!(can_render("```\n   - an item in a code block\n4294967295. a\n```", width));
    }
}

#[test]
fn can_render_takes_a_list_item_where_its_marker_has_room() {
    // (text, the room of the widest marker)
    let cases = [
        ("- item", 2),
        ("* item", 2),
        ("+ item", 2),
        ("-", 0),
        ("- ", 2),
        (" - nested", 3),
        ("  - nested", 4),
        ("   - nested", 5),
        ("text\n1. first\n2. second", 3),
        ("7) seven", 3),
        ("10. ten", 4),
        ("   10. ten", 7),
        ("123456789. nine digits", 11),
        ("1234567890. ten digits", 12),
        ("   4294967294. the last index but one", 15),
        ("9. a\n9. b", 4),
        ("98. a\n1. b\n1. c", 5),
        ("> quote", 2),
    ];
    for (text, room) in cases {
        for width in 1..20 {
            assert_eq!(
                can_render(text, width),
                width < 3 || width >= room,
                "{:?} at {}",
                text,
                width
            );
        }
    }
}

#[test]
fn can_render_refuses_an_index_beyond_thirty_two_bits() {
    for text in [
        "4294967295. one item",
        "4294967294. a\n1. b",
        "4294967293. a\n1. b\n1. c",
        "text\n   4294967295) item",
    ] {
        for width in [1, 2, 3, 14, 15, 40, 200] {
            assert!(!can_render(text, width), "{:?} at {}", text, width);
        }
    }
    for text in [
        "4294967294. one item",
        "4294967293. a\n1. b",
        "4294967294. a\n\n1. b",
        "4294967294. a\n  1. b",
        "4294967296. an index that is read as 1",
        "99999999999999999999. an index that is read as 1",
    ] {
        assert!(can_render(text, 40), "{:?}", text);
    }
}

#[test]
fn can_render_refuses_a_cell_whose_marker_has_no_room_in_its_column() {
    let narrow = "|   - a list item in a cell that is long long long and longer still|another cell with much text in it|\n|-|-|";
    assert!(!can_render(narrow, 40));
    assert!(can_render(narrow, 200));
    assert!(can_render("|   - a list item in a cell that is long long long|b|\n|-|-|", 12));
    assert!(can_render("|- item|b|", 10));
    assert!(can_render("|1. first|b|", 9));
    // A space before the index adds a level, and with it a column of room.
    assert!(!can_render("| 1. first | b |", 9));
    assert!(can_render("| 1. first | b |", 40));
    assert!(can_render("|   - item|b|", 120));
    // Nine columns hold two columns of three; thirteen would hold the three of the table.
    let three = "|   - a|   - b|   - c|";
    assert!(!can_render(three, 9));
    assert!(can_render(three, 4));
    assert!(can_render(three, 40));
}

#[test]
fn takes_decides_from_the_lines() {
    let plain = |room: usize| vec![LineShape::Plain(room)];
    assert!(takes(&Vec::new(), 1));
    assert!(takes(&plain(5), 5));
    assert!(!takes(&plain(5), 4));
    assert!(!takes(&plain(5), 3));
    assert!(takes(&plain(5), 2));
    assert!(takes(&plain(5), 0));
    assert!(takes(&vec![LineShape::Break, LineShape::Fence, LineShape::Rule(3)], 3));

    // Between fences every line is code.
    let fenced = vec![
        LineShape::Fence,
        LineShape::Plain(5),
        LineShape::Ordered(3, u32::MAX),
        LineShape::Fence,
    ];
    assert!(takes(&fenced, 3));
    let reopened = vec![LineShape::Fence, LineShape::Fence, LineShape::Plain(5)];
    assert!(!takes(&reopened, 3));

    // An ordered item is numbered from the first index of its list.
    let list = |indexes: &[u32]| {
        indexes
            .iter()
            .map(|index| LineShape::Ordered(0, *index))
            .collect::<Vec<_>>()
    };
    assert!(takes(&list(&[1, 1, 1]), 3));
    assert!(takes(&list(&[9]), 3));
    assert!(!takes(&list(&[9, 1]), 3));
    assert!(takes(&list(&[9, 1]), 4));
    assert!(takes(&list(&[u32::MAX - 1]), 40));
    assert!(!takes(&list(&[u32::MAX]), 40));
    assert!(!takes(&list(&[u32::MAX - 1, 5]), 40));
    assert!(!takes(&list(&[u32::MAX - 1, 5]), 1));
    // A line between two items ends the list, and so does a table.
    let broken = vec![
        LineShape::Ordered(0, u32::MAX - 1),
        LineShape::Plain(0),
        LineShape::Ordered(0, u32::MAX - 1),
        LineShape::Rule(1),
        LineShape::Ordered(0, u32::MAX - 1),
    ];
    assert!(takes(&broken, 40));
    // A shallower item that starts a list ends the deeper list; one that continues does not.
    let nested = |first: LineShape| {
        vec![
            first,
            LineShape::Ordered(1, u32::MAX - 1),
            LineShape::Ordered(0, 1),
            LineShape::Ordered(1, 7),
        ]
    };
    assert!(!takes(&nested(LineShape::Ordered(0, 1)), 40));
    assert!(takes(&nested(LineShape::Plain(0)), 40));
    // The level counts toward the room.
    assert!(takes(&vec![LineShape::Ordered(3, 10)], 7));
    assert!(!takes(&vec![LineShape::Ordered(3, 10)], 6));
}

#[test]
fn takes_decides_tables_by_the_widths_of_their_columns() {
    let cell = |room: usize, width: usize| Cell { room, width };
    // A table that fits keeps each column as wide as its widest cell.
    let fits = vec![LineShape::Row(vec![cell(5, 20), cell(0, 10)])];
    assert!(takes(&fits, 33));
    assert!(takes(&fits, 200));
    // Below nine columns the width cannot hold two columns: one is kept, three wide.
    assert!(!takes(&fits, 8));
    assert!(!takes(&fits, 5));
    assert!(takes(&fits, 4));
    assert!(takes(&fits, 1));
    let second = vec![LineShape::Row(vec![cell(0, 20), cell(5, 10)])];
    assert!(takes(&second, 8));
    assert!(!takes(&second, 9));
    // A room of three has room in every column.
    assert!(takes(&vec![LineShape::Row(vec![cell(3, 90), cell(3, 90)])], 9));
    // A rule adds columns without cells; a table of no columns is left alone.
    assert!(takes(&vec![LineShape::Rule(0)], 1));
    assert!(takes(&vec![LineShape::Rule(4), LineShape::Row(vec![cell(4, 4)])], 18));
    assert!(!takes(&vec![LineShape::Rule(4), LineShape::Row(vec![cell(4, 4)])], 17));
    assert!(!takes(&vec![LineShape::Rule(4), LineShape::Row(vec![cell(4, 4)])], 16));
    // Two tables with a line between them are fitted each by itself.
    let two = vec![
        LineShape::Row(vec![cell(0, 100)]),
        LineShape::Plain(0),
        LineShape::Row(vec![cell(4, 4)]),
    ];
    assert!(takes(&two, 6));
    assert!(!takes(&two, 5));
}

#[test]
fn is_bounded_refuses_tables_beyond_the_limit() {
    let cell = |width: usize| Cell { room: 0, width };
    assert!(is_bounded(&Vec::new()));
    assert!(is_bounded(&vec![
        LineShape::Plain(usize::MAX),
        LineShape::Ordered(255, u32::MAX),
        LineShape::Rule(1 << 20),
        LineShape::Row(vec![cell(1 << 20), cell(0)]),
    ]));
    assert!(!is_bounded(&vec![LineShape::Rule((1 << 20) + 1)]));
    assert!(!is_bounded(&vec![
        LineShape::Break,
        LineShape::Row(vec![cell(0), cell((1 << 20) + 1)]),
    ]));
}

#[test]
fn flush_hands_out_unrendered_only_what_the_renderer_cannot_take() {
    let cases = [
        (3, "  * abcdefghij"),
        (10, "1234567890. abcdefghijklmnopqrst"),
        (3, "- item with some long text that wraps\n  - nested item"),
        (40, "|   - a list item in a cell that is long long long and longer still|another cell with much text in it|\n|-|-|"),
        (120, "4294967295. a\n4294967295. b"),
        (120, "4294967295. a"),
    ];
    for (width, text) in cases {
        let mut buffer = TextBuffer::with_width(width);
        buffer.push(text);
        buffer.push("\n\n\n");
        assert_eq!(buffer.flush(), Some(format!("{}\n\n", text)));
        assert!(buffer.is_empty());
    }
}

#[test]
fn flush_renders_tables_and_lists_at_narrow_widths() {
    let mut buffer = TextBuffer::with_width(120);
    buffer.push("|3.5|4.2|");
    let out = strip_ansi_for_test(&buffer.flush().unwrap());
    assert!(out.contains("3.5") && out.contains("4.2"));
    assert!(!out.contains("|3.5|4.2|"), "the row is rendered: {:?}", out);

    let mut buffer = TextBuffer::with_width(10);
    buffer.push("- a");
    let out = strip_ansi_for_test(&buffer.flush().unwrap());
    assert!(out.contains("a"));
    assert!(!out.contains("- a"), "the bullet is rendered: {:?}", out);

    let mut buffer = TextBuffer::with_width(10);
    buffer.push("3.14 is pi, and this sentence is long enough to be wrapped");
    let out = strip_ansi_for_test(&buffer.flush().unwrap());
    assert!(out.lines().count() > 1);
    for line in out.lines() {
        assert!(line.chars().count() <= 10, "{:?}", line);
    }

    let mut buffer = TextBuffer::with_width(5);
    buffer.push("   - a nested item that has to be wrapped\n1. an ordered item that has to be wrapped");
    let out = strip_ansi_for_test(&buffer.flush().unwrap());
    assert!(!out.contains("- a"), "the bullet is rendered: {:?}", out);
    assert!(out.lines().count() > 4);
}

#[test]
fn flush_renders_lists_from_fifteen_columns_on() {
    let text = "- First item with some extra text that might wrap\n   - nested item with more text to wrap\n1. ordered\n2. ordered item with text";
    for width in [15, 16, 20, 40] {
        let mut buffer = TextBuffer::with_width(width);
        buffer.push(text);
        let out = strip_ansi_for_test(&buffer.flush().unwrap());
        assert!(out.contains("First"));
        assert!(!out.contains("- First"), "the bullet is rendered: {:?}", out);
        for line in out.lines() {
            assert!(line.chars().count() <= width, "{:?} at {}", line, width);
        }
    }
}

#[test]
fn flush_renders_narrow_paragraphs_at_their_width() {
    let text = "This is a paragraph that has to be wrapped at a narrow width.";
    for width in [3, 5, 10, 14] {
        let mut buffer = TextBuffer::with_width(width);
        buffer.push(text);
        let out = strip_ansi_for_test(&buffer.flush().unwrap());
        assert!(out.lines().count() > 1);
        for line in out.lines() {
            assert!(line.chars().count() <= width, "{:?} at {}", line, width);
        }
    }
}

#[test]
fn new_buffer_has_no_fixed_width() {
    assert_eq!(TextBuffer::new().width(), None);
    assert_eq!(TextBuffer::default().width(), None);
}
