//! Rendering of a tool call's arguments as `key=value` pairs.

use crate::chars::{same_text, to_chars};
use crate::json::{
    entries_of, keys_ascending, number_to_text, object_entries, shapes, ArgShape, ArgValue,
};
use serde_json::Value;
use vstd::prelude::*;
use vstd::string::StringExecFns;

verus! {

/// The longest string value, in characters, that is displayed in full.
pub const MAX_ARG_DISPLAY_LEN: usize = 80;

/// The number of characters kept of a string value that is too long.
pub const KEPT_ARG_LEN: usize = 77;

/// Whether the argument `key` of the tool `tool` is left out of the display.
pub open spec fn is_suppressed(tool: Seq<char>, key: Seq<char>) -> bool {
    ||| tool == "edit"@ && (key == "old_string"@ || key == "new_string"@)
    ||| tool == "todo_write"@ && key == "todos"@
    ||| tool == "ask_user"@ && (key == "question"@ || key == "options"@)
}

/// `s` with every line feed replaced by a space.
pub open spec fn flatten(s: Seq<char>) -> Seq<char> {
    Seq::new(s.len(), |i: int| if s[i] == '\n' { ' ' } else { s[i] })
}

/// `s` itself if it has at most `MAX_ARG_DISPLAY_LEN` characters, else its first
/// `KEPT_ARG_LEN` characters followed by three dots.
pub open spec fn clip(s: Seq<char>) -> Seq<char> {
    if s.len() > MAX_ARG_DISPLAY_LEN {
        s.subrange(0, KEPT_ARG_LEN as int) + "..."@
    } else {
        s
    }
}

/// `s` between two double quotes.
pub open spec fn quoted(s: Seq<char>) -> Seq<char> {
    seq!['"'] + s + seq!['"']
}

/// The display of one argument value.
pub open spec fn render_value(value: ArgShape) -> Seq<char> {
    match value {
        ArgShape::Text(s) => quoted(clip(flatten(s))),
        ArgShape::Number(text) => text,
        ArgShape::Bool(b) => if b { "true"@ } else { "false"@ },
        ArgShape::Null => "null"@,
        ArgShape::Composite => "..."@,
    }
}

/// What one entry adds to the display: nothing if it is suppressed for the tool, else
/// `key=value` and one space.
pub open spec fn render_entry(tool: Seq<char>, entry: (Seq<char>, ArgShape)) -> Seq<char> {
    if is_suppressed(tool, entry.0) {
        Seq::empty()
    } else {
        entry.0 + "="@ + render_value(entry.1) + " "@
    }
}

/// The display of a tool's arguments: what each entry adds, in the order of the entries.
/// The entries that are displayed are thereby joined by single spaces and followed by one
/// more space, and the display is empty when none is.
pub open spec fn render_args(tool: Seq<char>, entries: Seq<(Seq<char>, ArgShape)>) -> Seq<char>
    decreases entries.len(),
{
    if entries.len() == 0 {
        Seq::empty()
    } else {
        render_args(tool, entries.drop_last()) + render_entry(tool, entries.last())
    }
}

/// The display of the arguments `args` of a tool: empty unless `args` is an object.
pub open spec fn tool_args_text(tool: Seq<char>, args: Value) -> Seq<char> {
    match object_entries(args) {
        Some(entries) => render_args(tool, entries),
        None => Seq::empty(),
    }
}

/// Decides whether the argument `key` of the tool `tool_name` is left out of the display.
pub fn suppresses(tool_name: &str, key: &str) -> (r: bool)
    ensures
        r == is_suppressed(tool_name@, key@),
{
    proof {
        reveal_strlit("edit");
        reveal_strlit("todo_write");
        reveal_strlit("ask_user");
        assert("edit"@.len() == 4 && "todo_write"@.len() == 10 && "ask_user"@.len() == 8);
    }
    if same_text(tool_name, "edit") {
        same_text(key, "old_string") || same_text(key, "new_string")
    } else if same_text(tool_name, "todo_write") {
        same_text(key, "todos")
    } else if same_text(tool_name, "ask_user") {
        same_text(key, "question") || same_text(key, "options")
    } else {
        false
    }
}

/// Displays a string value: line feeds become spaces, a value of more than
/// `MAX_ARG_DISPLAY_LEN` characters is cut to `KEPT_ARG_LEN` characters and three dots,
/// and the whole stands between double quotes.
pub fn quote_text(s: &str) -> (r: String)
    ensures
        r@ == quoted(clip(flatten(s@))),
{
    let chars = to_chars(s);
    let len = chars.len();
    let kept = if len > MAX_ARG_DISPLAY_LEN { KEPT_ARG_LEN } else { len };
    let mut out = String::new();
    out.push('"');
    let mut i: usize = 0;
    while i < kept
        invariant
            i <= kept <= len,
            len == chars.len(),
            chars@ == s@,
            out@ == seq!['"'] + flatten(s@).subrange(0, i as int),
        decreases kept - i,
    {
        let c = chars[i];
        out.push(if c == '\n' { ' ' } else { c });
        i += 1;
    }
    if len > MAX_ARG_DISPLAY_LEN {
        out.append("...");
    }
    out.push('"');
    out
}

/// Displays one argument value.
pub fn value_text(value: &ArgValue) -> (r: String)
    ensures
        r@ == render_value(value@),
{
    match value {
        ArgValue::Text(s) => quote_text(s.as_str()),
        ArgValue::Number(n) => number_to_text(n),
        ArgValue::Bool(b) => String::from_str(if *b { "true" } else { "false" }),
        ArgValue::Null => String::from_str("null"),
        ArgValue::Composite => String::from_str("..."),
    }
}

/// Displays the entries of a tool's arguments, in their order.
pub fn render_entries(tool_name: &str, entries: &Vec<(String, ArgValue)>) -> (r: String)
    ensures
        r@ == render_args(tool_name@, shapes(entries@)),
{
    let mut out = String::new();
    let mut i: usize = 0;
    while i < entries.len()
        invariant
            i <= entries.len(),
            out@ == render_args(tool_name@, shapes(entries@.subrange(0, i as int))),
        decreases entries.len() - i,
    {
        let key = entries[i].0.as_str();
        proof {
            let before = shapes(entries@.subrange(0, i as int));
            let now = shapes(entries@.subrange(0, i + 1));
            assert(now.drop_last() == before);
        }
        if !suppresses(tool_name, key) {
            let text = value_text(&entries[i].1);
            out.append(key);
            out.append("=");
            out.append(text.as_str());
            out.append(" ");
        }
        i += 1;
    }
    proof {
        assert(entries@.subrange(0, entries.len() as int) == entries@);
    }
    out
}

/// Formats the arguments of a tool call for display: the members of the JSON object
/// `args` in key order as `key=value`, each followed by one space, without those that are
/// suppressed for the tool. Anything but an object gives the empty string.
pub fn format_tool_args(tool_name: &str, args: &Value) -> (r: String)
    ensures
        r@ == tool_args_text(tool_name@, *args),
        object_entries(*args) matches Some(entries) ==> keys_ascending(entries),
{
    match entries_of(args) {
        Some(entries) => render_entries(tool_name, &entries),
        None => String::new(),
    }
}

/// The parts of the display, one `key=value` for each entry that is not suppressed.
pub open spec fn displayed_parts(tool: Seq<char>, entries: Seq<(Seq<char>, ArgShape)>) -> Seq<
    Seq<char>,
>
    decreases entries.len(),
{
    if entries.len() == 0 {
        Seq::empty()
    } else {
        let before = displayed_parts(tool, entries.drop_last());
        if is_suppressed(tool, entries.last().0) {
            before
        } else {
            before.push(entries.last().0 + "="@ + render_value(entries.last().1))
        }
    }
}

/// `parts` joined by single spaces.
pub open spec fn joined(parts: Seq<Seq<char>>) -> Seq<char>
    decreases parts.len(),
{
    if parts.len() == 0 {
        Seq::empty()
    } else if parts.len() == 1 {
        parts[0]
    } else {
        joined(parts.drop_last()) + " "@ + parts.last()
    }
}

/// The display of a tool's arguments is empty when every entry is suppressed; else it is
/// the displayed parts joined by single spaces and followed by one more space.
pub proof fn lemma_render_args_joins_parts(tool: Seq<char>, entries: Seq<(Seq<char>, ArgShape)>)
    ensures
        render_args(tool, entries) == if displayed_parts(tool, entries).len() == 0 {
            Seq::<char>::empty()
        } else {
            joined(displayed_parts(tool, entries)) + " "@
        },
    decreases entries.len(),
{
    if entries.len() > 0 {
        let rest = entries.drop_last();
        lemma_render_args_joins_parts(tool, rest);
        let before = displayed_parts(tool, rest);
        if !is_suppressed(tool, entries.last().0) {
            let part = entries.last().0 + "="@ + render_value(entries.last().1);
            let parts = before.push(part);
            assert(parts.drop_last() == before);
        }
    }
}

/// A string value of at most `MAX_ARG_DISPLAY_LEN` characters is displayed in full. A longer
/// one is displayed as its first `KEPT_ARG_LEN` characters and three dots, which makes
/// `MAX_ARG_DISPLAY_LEN` characters.
pub proof fn lemma_clip_is_exact(s: Seq<char>)
    ensures
        s.len() <= MAX_ARG_DISPLAY_LEN ==> clip(s) == s,
        s.len() > MAX_ARG_DISPLAY_LEN ==> clip(s) == s.subrange(0, KEPT_ARG_LEN as int) + "..."@
            && clip(s).len() == MAX_ARG_DISPLAY_LEN,
{
    reveal_strlit("...");
}

/// Replacing line feeds keeps the length of a text, so whether a value is cut depends on
/// its own length alone.
pub proof fn lemma_flatten_keeps_length(s: Seq<char>)
    ensures
        flatten(s).len() == s.len(),
        forall|i: int| 0 <= i < s.len() ==> flatten(s)[i] != '\n',
{
}

/// An entry that is suppressed for the tool leaves no trace in the display, whatever its
/// value holds.
pub proof fn lemma_suppressed_entry_leaves_no_trace(
    tool: Seq<char>,
    entries: Seq<(Seq<char>, ArgShape)>,
    key: Seq<char>,
    value: ArgShape,
)
    requires
        is_suppressed(tool, key),
    ensures
        render_args(tool, entries.push((key, value))) == render_args(tool, entries),
{
    let all = entries.push((key, value));
    assert(all.drop_last() == entries);
}

} // verus!
