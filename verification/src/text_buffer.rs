//! A buffer that collects streamed text and renders it as markdown when it is flushed.

use crate::chars::to_chars;
use crate::markdown::{can_render, render_markdown, renderable};
use vstd::prelude::*;
use vstd::string::{StrSliceExecFns, StringExecFns};

verus! {

/// The width in columns that is used when the terminal reports none.
pub const DEFAULT_WIDTH: usize = 120;

/// `s` without the line feeds at its end.
pub open spec fn strip_newlines(s: Seq<char>) -> Seq<char>
    decreases s.len(),
{
    if s.len() > 0 && s.last() == '\n' {
        strip_newlines(s.drop_last())
    } else {
        s
    }
}

/// What a flush hands out for the rendered text `rendered`: nothing if it holds only line
/// feeds, else the text with the line feeds at its end replaced by exactly two.
pub open spec fn finish(rendered: Seq<char>) -> Option<Seq<char>> {
    let body = strip_newlines(rendered);
    if body.len() == 0 {
        None
    } else {
        Some(body + "\n\n"@)
    }
}

/// Whether `out` is a block as a flush hands it out: a text that is not empty and does not
/// end in a line feed, followed by exactly two line feeds.
pub open spec fn is_block(out: Seq<char>) -> bool {
    &&& out.len() >= 3
    &&& out[out.len() - 1] == '\n'
    &&& out[out.len() - 2] == '\n'
    &&& out[out.len() - 3] != '\n'
}

/// The width to render at: the configured one if there is one, else the detected one, and
/// `DEFAULT_WIDTH` where the detection fails or the terminal reports zero columns.
pub open spec fn effective_width(configured: Option<usize>, detected: Option<u16>) -> usize {
    match configured {
        Some(width) => width,
        None => match detected {
            Some(columns) if columns > 0 => columns as usize,
            _ => DEFAULT_WIDTH,
        },
    }
}

/// The text of what a flush hands out.
pub open spec fn shown(block: Option<String>) -> Option<Seq<char>> {
    match block {
        Some(out) => Some(out@),
        None => None,
    }
}

/// Calls `crossterm::terminal::size`, as `termimad` hands it on, and returns the columns
/// of the answer, or nothing where the call fails. Nothing is known of the number: it is
/// the terminal's at the moment of the call.
#[verifier::external_body]
fn terminal_columns() -> (r: Option<u16>) {
    match termimad::crossterm::terminal::size() {
        Ok((columns, _)) => Some(columns),
        Err(_) => None,
    }
}

/// Resolves the width to render at from the configured width and the columns that the
/// terminal reported.
pub fn resolve_width(configured: Option<usize>, detected: Option<u16>) -> (r: usize)
    ensures
        r == effective_width(configured, detected),
{
    match configured {
        Some(width) => width,
        None => match detected {
            Some(columns) => if columns > 0 {
                columns as usize
            } else {
                DEFAULT_WIDTH
            },
            None => DEFAULT_WIDTH,
        },
    }
}

/// Detects the width of the terminal, with `DEFAULT_WIDTH` where the detection fails or
/// gives zero.
pub fn detect_terminal_width() -> (r: usize)
    ensures
        r > 0,
        exists|detected: Option<u16>| r == #[trigger] effective_width(None, detected),
{
    resolve_width(None, terminal_columns())
}

/// `strip_newlines` cuts `s` at `end` when only line feeds follow `end` and none stands
/// just before it.
proof fn lemma_strip_at(s: Seq<char>, end: int)
    requires
        0 <= end <= s.len(),
        forall|i: int| end <= i < s.len() ==> s[i] == '\n',
        end > 0 ==> s[end - 1] != '\n',
    ensures
        strip_newlines(s) == s.subrange(0, end),
    decreases s.len() - end,
{
    if end < s.len() {
        lemma_strip_at(s.drop_last(), end);
    }
}

/// Normalizes a rendered text to a block: the line feeds at its end are replaced by exactly
/// two, and a text that holds only line feeds gives nothing.
pub fn finish_block(rendered: &str) -> (r: Option<String>)
    ensures
        match r {
            Some(out) => finish(rendered@) == Some(out@),
            None => finish(rendered@) is None,
        },
{
    let chars = to_chars(rendered);
    let mut end: usize = chars.len();
    while end > 0 && chars[end - 1] == '\n'
        invariant
            end <= chars.len(),
            forall|i: int| end <= i < chars.len() ==> chars@[i] == '\n',
        decreases end,
    {
        end -= 1;
    }
    proof {
        lemma_strip_at(rendered@, end as int);
    }
    if end == 0 {
        None
    } else {
        let mut out = String::from_str(rendered.substring_char(0, end));
        out.append("\n\n");
        Some(out)
    }
}

/// A buffer for streamed text. Text is collected with `push` and handed out by `flush`,
/// rendered as markdown and wrapped to a fixed width or to the width of the terminal at
/// that moment.
#[derive(Debug)]
pub struct TextBuffer {
    text: String,
    width: Option<Columns>,
}

/// A width in columns, which is positive.
#[derive(Debug)]
struct Columns {
    count: usize,
}

impl Columns {
    #[verifier::type_invariant]
    spec fn is_positive(self) -> bool {
        self.count > 0
    }
}

impl TextBuffer {
    /// The text that was pushed since the last flush.
    pub closed spec fn pending(self) -> Seq<char> {
        self.text@
    }

    /// The configured width: `None` for the width of the terminal.
    pub closed spec fn fixed_width(self) -> Option<usize> {
        match self.width {
            Some(columns) => Some(columns.count),
            None => None,
        }
    }

    /// Makes an empty buffer that wraps to the width of the terminal.
    pub fn new() -> (r: Self)
        ensures
            r.pending() == Seq::<char>::empty(),
            r.fixed_width() is None,
    {
        TextBuffer { text: String::new(), width: None }
    }

    /// Makes an empty buffer that wraps to `width` columns.
    #[must_use]
    pub fn with_width(width: usize) -> (r: Self)
        requires
            width > 0,
        ensures
            r.pending() == Seq::<char>::empty(),
            r.fixed_width() == Some(width),
    {
        TextBuffer { text: String::new(), width: Some(Columns { count: width }) }
    }

    /// The configured width: `None` for the width of the terminal.
    pub fn width(&self) -> (r: Option<usize>)
        ensures
            r == self.fixed_width(),
            r matches Some(width) ==> width > 0,
    {
        match &self.width {
            Some(columns) => {
                proof {
                    use_type_invariant(columns);
                }
                Some(columns.count)
            },
            None => None,
        }
    }

    /// Appends `text` to the buffer.
    pub fn push(&mut self, text: &str)
        ensures
            final(self).pending() == old(self).pending() + text@,
            final(self).fixed_width() == old(self).fixed_width(),
    {
        self.text.append(text);
    }

    /// Takes the pending text out of the buffer, which is empty afterwards. An empty buffer
    /// gives nothing.
    pub fn take_pending(&mut self) -> (r: Option<String>)
        ensures
            final(self).pending() == Seq::<char>::empty(),
            final(self).fixed_width() == old(self).fixed_width(),
            match r {
                Some(text) => text@ == old(self).pending() && text@.len() > 0,
                None => old(self).pending().len() == 0,
            },
    {
        if self.text.as_str().is_empty() {
            return None;
        }
        let mut text = String::new();
        std::mem::swap(&mut self.text, &mut text);
        Some(text)
    }

    /// Resolves the width to render at: the configured width if there is one, else the
    /// width of the terminal at this moment.
    pub fn render_width(&self) -> (r: usize)
        ensures
            r > 0,
            self.fixed_width() matches Some(width) ==> r == width,
            exists|detected: Option<u16>| r == #[trigger] effective_width(self.fixed_width(), detected),
    {
        match self.width() {
            Some(width) => {
                assert(width == effective_width(self.fixed_width(), None));
                width
            },
            None => detect_terminal_width(),
        }
    }

    /// Takes the pending text out of the buffer and hands it out as a block: rendered as
    /// markdown at the width that `render_width` resolves, and normalized as `finish_block`
    /// does. Only a text on which the renderer would go out of its bounds at that width is
    /// not rendered, and normalized as it stands. An empty buffer gives nothing, and so does
    /// a text whose rendering holds only line feeds. The buffer is empty afterwards in
    /// every case.
    pub fn flush(&mut self) -> (r: Option<String>)
        ensures
            final(self).pending() == Seq::<char>::empty(),
            final(self).fixed_width() == old(self).fixed_width(),
            old(self).pending().len() == 0 ==> r is None,
            r matches Some(out) ==> is_block(out@),
            old(self).pending().len() > 0 ==> exists|detected: Option<u16>|
                renderable(
                    old(self).pending(),
                    #[trigger] effective_width(old(self).fixed_width(), detected),
                ) || shown(r) == finish(old(self).pending()),
    {
        let text = match self.take_pending() {
            Some(text) => text,
            None => {
                return None;
            },
        };
        let width = self.render_width();
        if can_render(text.as_str(), width) {
            let rendered = render_markdown(text.as_str(), width);
            proof {
                lemma_finish_is_block(rendered@);
            }
            finish_block(rendered.as_str())
        } else {
            proof {
                lemma_finish_is_block(text@);
            }
            finish_block(text.as_str())
        }
    }

    /// Whether nothing is pending.
    pub fn is_empty(&self) -> (r: bool)
        ensures
            r == (self.pending().len() == 0),
    {
        self.text.as_str().is_empty()
    }
}

impl Default for TextBuffer {
    fn default() -> (r: Self)
        ensures
            r.pending() == Seq::<char>::empty(),
            r.fixed_width() is None,
    {
        TextBuffer::new()
    }
}

/// What `strip_newlines` leaves does not end in a line feed.
pub proof fn lemma_strip_has_no_newline_at_end(s: Seq<char>)
    ensures
        strip_newlines(s).len() > 0 ==> strip_newlines(s).last() != '\n',
    decreases s.len(),
{
    if s.len() > 0 && s.last() == '\n' {
        lemma_strip_has_no_newline_at_end(s.drop_last());
    }
}

/// Every block that a flush hands out ends in exactly two line feeds: whatever the
/// rendered text ends in, the result has two line feeds at its end and another character
/// before them.
pub proof fn lemma_finish_is_block(rendered: Seq<char>)
    ensures
        finish(rendered) matches Some(out) ==> is_block(out),
{
    reveal_strlit("\n\n");
    lemma_strip_has_no_newline_at_end(rendered);
}

/// Line feeds at the end of the rendered text make no difference to the block.
pub proof fn lemma_finish_ignores_newlines_at_end(rendered: Seq<char>, newlines: Seq<char>)
    requires
        forall|i: int| 0 <= i < newlines.len() ==> newlines[i] == '\n',
    ensures
        finish(rendered + newlines) == finish(rendered),
    decreases newlines.len(),
{
    if newlines.len() > 0 {
        let whole = rendered + newlines;
        assert(whole.drop_last() == rendered + newlines.drop_last());
        lemma_finish_ignores_newlines_at_end(rendered, newlines.drop_last());
    }
}

/// A flush gives nothing exactly when the rendered text holds only line feeds, the empty
/// text among them.
pub proof fn lemma_finish_is_none_for_newlines_only(rendered: Seq<char>)
    ensures
        finish(rendered) is None <==> forall|i: int| 0 <= i < rendered.len() ==> rendered[i] == '\n',
    decreases rendered.len(),
{
    if rendered.len() > 0 && rendered.last() == '\n' {
        lemma_finish_is_none_for_newlines_only(rendered.drop_last());
        assert(forall|i: int|
            0 <= i < rendered.drop_last().len() ==> rendered.drop_last()[i] == rendered[i]);
    }
}

} // verus!
