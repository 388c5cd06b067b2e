//! Terminal styling of pieces of text, done by the `colored` crate.
//!
//! Whether `colored` writes escape sequences is decided by a process-wide switch that
//! follows the environment, so each call may come back either way. The contracts below
//! state both outcomes; they hold as long as the switch is not turned while a call runs.

use colored::Colorize;
use vstd::prelude::*;

verus! {

/// The escape character.
pub const ESC: char = '\x1b';

/// The escape sequence that selects the graphic rendition `code`.
pub open spec fn escape(code: Seq<char>) -> Seq<char> {
    seq![ESC, '['] + code + seq!['m']
}

/// The escape sequence that ends every styling.
pub open spec fn reset() -> Seq<char> {
    escape(seq!['0'])
}

/// Whether `out` is a text between the escape sequence of `code` and the reset sequence.
pub open spec fn is_wrapped(out: Seq<char>, code: Seq<char>) -> bool {
    exists|body: Seq<char>| out == escape(code) + #[trigger] (body + reset())
}

/// Whether `out` is `text` as it may come back from styling with `code`: unchanged when
/// colouring is off, else wrapped in escape sequences. Inside the wrapping a text without
/// an escape character stands as it is.
pub open spec fn is_styling(out: Seq<char>, code: Seq<char>, text: Seq<char>) -> bool {
    ||| out == text
    ||| if text.contains(ESC) {
        is_wrapped(out, code)
    } else {
        out == escape(code) + (text + reset())
    }
}

/// Whether `c` is an ASCII letter, the kind of character that ends an escape sequence.
pub open spec fn is_letter(c: char) -> bool {
    ('a' <= c && c <= 'z') || ('A' <= c && c <= 'Z')
}

/// `s` without its escape sequences, each of which runs from an escape character to the
/// next ASCII letter. `inside` says whether `s` starts within one.
pub open spec fn strip_from(s: Seq<char>, inside: bool) -> Seq<char>
    decreases s.len(),
{
    if s.len() == 0 {
        Seq::empty()
    } else if s[0] == ESC {
        strip_from(s.drop_first(), true)
    } else if inside {
        strip_from(s.drop_first(), !is_letter(s[0]))
    } else {
        seq![s[0]] + strip_from(s.drop_first(), false)
    }
}

/// Whether the end of `s` lies within an escape sequence, where `inside` says the same of
/// its start.
pub open spec fn inside_after(s: Seq<char>, inside: bool) -> bool
    decreases s.len(),
{
    if s.len() == 0 {
        inside
    } else if s[0] == ESC {
        inside_after(s.drop_first(), true)
    } else if inside {
        inside_after(s.drop_first(), !is_letter(s[0]))
    } else {
        inside_after(s.drop_first(), false)
    }
}

/// The content of `s`: what is left of it without its escape sequences.
pub open spec fn content(s: Seq<char>) -> Seq<char> {
    strip_from(s, false)
}

/// Whether `styled` has the content `text` and ends outside of any escape sequence.
pub open spec fn shows(styled: Seq<char>, text: Seq<char>) -> bool {
    content(styled) == text && !inside_after(styled, false)
}

/// Whether `code` can stand in an escape sequence: it holds no letter and no escape
/// character.
pub open spec fn is_code(code: Seq<char>) -> bool {
    forall|i: int| 0 <= i < code.len() ==> !is_letter(#[trigger] code[i]) && code[i] != ESC
}

/// Removing escape sequences from two texts in a row removes them from each, the second
/// read from where the first ends.
pub proof fn lemma_strip_concat(a: Seq<char>, b: Seq<char>, inside: bool)
    ensures
        strip_from(a + b, inside) == strip_from(a, inside) + strip_from(b, inside_after(a, inside)),
        inside_after(a + b, inside) == inside_after(b, inside_after(a, inside)),
    decreases a.len(),
{
    if a.len() > 0 {
        assert((a + b).drop_first() == a.drop_first() + b);
        let next = if a[0] == ESC {
            true
        } else if inside {
            !is_letter(a[0])
        } else {
            false
        };
        lemma_strip_concat(a.drop_first(), b, next);
    }
}

/// A text without an escape character is its own content.
pub proof fn lemma_plain_text_shows_itself(s: Seq<char>)
    requires
        !s.contains(ESC),
    ensures
        shows(s, s),
    decreases s.len(),
{
    if s.len() > 0 {
        let rest = s.drop_first();
        assert forall|i: int| 0 <= i < rest.len() implies rest[i] != ESC by {}
        lemma_plain_text_shows_itself(rest);
        assert(s =~= seq![s[0]] + rest);
    } else {
        assert(strip_from(s, false) =~= s);
    }
}

/// Within an escape sequence a code is passed over and leaves the reader within it.
proof fn lemma_code_is_passed_over(code: Seq<char>)
    requires
        is_code(code),
    ensures
        strip_from(code, true) == Seq::<char>::empty(),
        inside_after(code, true),
    decreases code.len(),
{
    if code.len() > 0 {
        assert forall|i: int| 0 <= i < code.drop_first().len() implies !is_letter(
            #[trigger] code.drop_first()[i],
        ) && code.drop_first()[i] != ESC by {}
        lemma_code_is_passed_over(code.drop_first());
    }
}

/// An escape sequence has no content, and what follows it stands outside of it, wherever
/// the sequence starts.
pub proof fn lemma_escape_shows_nothing(code: Seq<char>, inside: bool)
    requires
        is_code(code),
    ensures
        strip_from(escape(code), inside) == Seq::<char>::empty(),
        !inside_after(escape(code), inside),
{
    let head = seq![ESC, '['];
    let tail = seq!['m'];
    lemma_code_is_passed_over(code);
    assert(strip_from(head, inside) == Seq::<char>::empty() && inside_after(head, inside)) by {
        assert(head.drop_first() == seq!['[']);
        assert(seq!['['].drop_first() == Seq::<char>::empty());
        reveal_with_fuel(strip_from, 3);
        reveal_with_fuel(inside_after, 3);
    }
    assert(strip_from(tail, true) == Seq::<char>::empty() && !inside_after(tail, true)) by {
        assert(tail.drop_first() == Seq::<char>::empty());
        reveal_with_fuel(strip_from, 2);
        reveal_with_fuel(inside_after, 2);
    }
    lemma_strip_concat(head, code, inside);
    lemma_strip_concat(head + code, tail, inside);
}

/// Two texts without an escape character make a text without one.
pub proof fn lemma_concat_has_no_escape(a: Seq<char>, b: Seq<char>)
    requires
        !a.contains(ESC),
        !b.contains(ESC),
    ensures
        !(a + b).contains(ESC),
{
    assert forall|i: int| 0 <= i < (a + b).len() implies (a + b)[i] != ESC by {}
}

/// A styled text followed by a text without an escape character shows both contents.
pub proof fn lemma_shows_before_plain_text(a: Seq<char>, x: Seq<char>, b: Seq<char>)
    requires
        shows(a, x),
        !b.contains(ESC),
    ensures
        shows(a + b, x + b),
{
    lemma_plain_text_shows_itself(b);
    lemma_strip_concat(a, b, false);
}

/// Two styled texts in a row show what each shows, in a row.
pub proof fn lemma_shows_concat(a: Seq<char>, x: Seq<char>, b: Seq<char>, y: Seq<char>)
    requires
        shows(a, x),
        shows(b, y),
    ensures
        shows(a + b, x + y),
{
    lemma_strip_concat(a, b, false);
}

/// Styling keeps the content: a text without an escape character is the content of each
/// of its stylings.
pub proof fn lemma_styling_shows_text(out: Seq<char>, code: Seq<char>, text: Seq<char>)
    requires
        is_styling(out, code, text),
        is_code(code),
        !text.contains(ESC),
    ensures
        shows(out, text),
{
    lemma_plain_text_shows_itself(text);
    if out != text {
        lemma_escape_shows_nothing(code, false);
        lemma_escape_shows_nothing(seq!['0'], false);
        lemma_strip_concat(text, reset(), false);
        lemma_strip_concat(escape(code), text + reset(), false);
    }
}

/// Calls `Colorize::cyan` of `colored` and writes the result out. With colouring off the
/// text comes back as it is; else between `ESC[36m` and `ESC[0m`, where the style is
/// written again behind each reset sequence that the text itself holds.
#[verifier::external_body]
pub(crate) fn cyan(text: &str) -> (r: String)
    ensures
        is_styling(r@, "36"@, text@),
{
    text.cyan().to_string()
}

/// Calls `Colorize::yellow` of `colored` and writes the result out: as `cyan`, with
/// `ESC[33m`.
#[verifier::external_body]
pub(crate) fn yellow(text: &str) -> (r: String)
    ensures
        is_styling(r@, "33"@, text@),
{
    text.yellow().to_string()
}

/// Calls `Colorize::red` of `colored` and writes the result out: as `cyan`, with
/// `ESC[31m`.
#[verifier::external_body]
pub(crate) fn red(text: &str) -> (r: String)
    ensures
        is_styling(r@, "31"@, text@),
{
    text.red().to_string()
}

/// Calls `Colorize::bright_yellow` of `colored` and writes the result out: as `cyan`,
/// with `ESC[93m`.
#[verifier::external_body]
pub(crate) fn bright_yellow(text: &str) -> (r: String)
    ensures
        is_styling(r@, "93"@, text@),
{
    text.bright_yellow().to_string()
}

/// Calls `Colorize::dimmed` of `colored` and writes the result out: as `cyan`, with
/// `ESC[2m`.
#[verifier::external_body]
pub(crate) fn dimmed(text: &str) -> (r: String)
    ensures
        is_styling(r@, "2"@, text@),
{
    text.dimmed().to_string()
}

/// Calls `Colorize::bright_red` and then `Colorize::bold` of `colored` and writes the
/// result out: as `cyan`, with `ESC[1;91m`, the style before the colour.
#[verifier::external_body]
pub(crate) fn bright_red_bold(text: &str) -> (r: String)
    ensures
        is_styling(r@, "1;91"@, text@),
{
    text.bright_red().bold().to_string()
}

} // verus!
