//! Lines that report tool calls and session events.
//!
//! Each line is described by a spec function whose name ends in `_line`, and built from
//! the pieces it is handed by the function of the same name ending in `_text`. A `format_`
//! function styles some of the pieces for the terminal and builds the line from them; the
//! lemmas at the end say that the content of such a line is the plain line.

use crate::args::{format_tool_args, tool_args_text};
use crate::chars::{
    append_decimal, append_padded, decimal, is_digits, lemma_decimal_is_digits,
    lemma_padded_is_digits, padded,
};
use crate::json::{json_text, value_to_text};
use crate::style::{
    bright_red_bold, bright_yellow, content, cyan, dimmed, is_code, is_styling,
    lemma_concat_has_no_escape, lemma_plain_text_shows_itself, lemma_shows_before_plain_text,
    lemma_shows_concat, lemma_styling_shows_text, red, shows, yellow, ESC,
};
use serde_json::Value;
use std::time::Duration;
use vstd::prelude::*;
use vstd::string::{StrSliceExecFns, StringExecFns};

verus! {

/// The number of characters that are counted as one token.
pub const CHARS_PER_TOKEN: usize = 4;

/// The whole seconds of `d`.
pub uninterp spec fn duration_secs(d: Duration) -> u64;

/// The nanoseconds of `d` beyond its whole seconds.
pub uninterp spec fn duration_subsec_nanos(d: Duration) -> u32;

/// `Duration::as_secs` returns the number of whole seconds that the duration holds.
pub assume_specification[ Duration::as_secs ](d: &Duration) -> (r: u64)
    ensures
        r == duration_secs(*d),
;

/// `Duration::subsec_nanos` returns the fractional part of the duration in nanoseconds,
/// which is less than one second.
pub assume_specification[ Duration::subsec_nanos ](d: &Duration) -> (r: u32)
    ensures
        r == duration_subsec_nanos(*d),
        r < 1_000_000_000,
;

/// The length of `d` in nanoseconds.
pub open spec fn duration_nanos(d: Duration) -> nat {
    (duration_secs(d) * 1_000_000_000 + duration_subsec_nanos(d)) as nat
}

/// `n / unit` rounded to the nearest integer, a tie to the even one.
pub open spec fn nearest(n: nat, unit: nat) -> nat
    recommends
        unit > 0,
{
    let q = n / unit;
    let r = n % unit;
    if 2 * r > unit || (2 * r == unit && q % 2 == 1) {
        q + 1
    } else {
        q
    }
}

/// `n` counted in units of which `10^places` make one: the whole part, a dot and
/// `places` digits.
pub open spec fn fixed_point(n: nat, places: nat) -> Seq<char> {
    decimal(n / pow10(places)) + "."@ + padded(n, places)
}

/// The power `10^e`.
pub open spec fn pow10(e: nat) -> nat
    decreases e,
{
    if e == 0 {
        1
    } else {
        10 * pow10((e - 1) as nat)
    }
}

/// The display of an elapsed time of `nanos` nanoseconds: in seconds, rounded to three
/// decimal places when it is under a millisecond and to two otherwise, followed by `s`.
/// The exact time is rounded, a tie to the even digit; a display that goes through a
/// binary fraction of the seconds rounds a tie by the error of that fraction instead.
pub open spec fn seconds_text(nanos: nat) -> Seq<char> {
    if nanos < 1_000_000 {
        fixed_point(nearest(nanos, 1_000_000), 3) + "s"@
    } else {
        fixed_point(nearest(nanos, 10_000_000), 2) + "s"@
    }
}

/// The line that opens a tool call.
pub open spec fn tool_start_line(name: Seq<char>, args: Seq<char>) -> Seq<char> {
    "┌─ "@ + name + " "@ + args + "\n"@
}

/// The line that closes a tool call.
pub open spec fn tool_result_line(
    name: Seq<char>,
    duration: Seq<char>,
    tokens: nat,
    suffix: Seq<char>,
) -> Seq<char> {
    "└─ "@ + name + " "@ + duration + " ~"@ + decimal(tokens) + " tok"@ + suffix
}

/// The line that details a tool's error.
pub open spec fn error_detail_line(message: Seq<char>) -> Seq<char> {
    "  └─ error: "@ + message
}

/// The message that announces a retry.
pub open spec fn retry_line(reason: Seq<char>, delay_secs: nat, attempt: nat, max_attempts: nat) -> Seq<
    char,
> {
    "["@ + reason + ": retrying in "@ + decimal(delay_secs) + "s (attempt "@ + decimal(attempt)
        + "/"@ + decimal(max_attempts) + ")]"@
}

/// The message that reports a cancelled task.
pub open spec fn cancelled_line(mark: Seq<char>) -> Seq<char> {
    mark + " task cancelled by client"@
}

/// The warning about the share of the context window in use.
pub open spec fn context_warning_line(percent: Seq<char>, critical: bool) -> Seq<char> {
    if critical {
        "WARNING: Context window at "@ + percent + "%."@ + " Use /clear to reset."@
    } else {
        "WARNING: Context window at "@ + percent + "%."@
    }
}

/// The number of tokens estimated for a text: a quarter of its characters, rounded down.
pub open spec fn token_estimate(text: Seq<char>) -> u32 {
    ((text.len() / CHARS_PER_TOKEN as nat) % 0x1_0000_0000) as u32
}

/// Whether `line` is the closing line of a tool call with its name, duration and error
/// mark styled.
pub open spec fn is_tool_result(
    line: Seq<char>,
    name: Seq<char>,
    nanos: nat,
    tokens: nat,
    has_error: bool,
) -> bool {
    exists|n: Seq<char>, d: Seq<char>, e: Seq<char>|
        {
            &&& line == #[trigger] tool_result_line(n, d, tokens, e)
            &&& is_styling(n, "36"@, name)
            &&& is_styling(d, "33"@, seconds_text(nanos))
            &&& if has_error {
                is_styling(e, "1;91"@, " ERROR"@)
            } else {
                e == Seq::<char>::empty()
            }
        }
}

/// Whether `line` is the opening line of a tool call with its name styled.
pub open spec fn is_tool_start(line: Seq<char>, name: Seq<char>, args: Seq<char>) -> bool {
    exists|n: Seq<char>| line == #[trigger] tool_start_line(n, args) && is_styling(n, "36"@, name)
}

/// Whether `line` is the error detail line with its message styled.
pub open spec fn is_error_detail(line: Seq<char>, message: Seq<char>) -> bool {
    exists|m: Seq<char>| line == #[trigger] error_detail_line(m) && is_styling(m, "2"@, message)
}

/// Whether `line` is the retry message with its reason styled.
pub open spec fn is_retry(
    line: Seq<char>,
    reason: Seq<char>,
    delay_secs: nat,
    attempt: nat,
    max_attempts: nat,
) -> bool {
    exists|e: Seq<char>|
        line == #[trigger] retry_line(e, delay_secs, attempt, max_attempts) && is_styling(
            e,
            "93"@,
            reason,
        )
}

/// Whether `line` is the cancellation message with its mark styled.
pub open spec fn is_cancelled(line: Seq<char>) -> bool {
    exists|m: Seq<char>| line == #[trigger] cancelled_line(m) && is_styling(m, "31"@, "ABORTED"@)
}

/// Writes an elapsed time of `secs` seconds and `nanos` nanoseconds in seconds: rounded to
/// three decimal places when it is under a millisecond and to two otherwise, a tie going
/// to the even digit.
pub fn duration_text(secs: u64, nanos: u32) -> (r: String)
    ensures
        r@ == seconds_text((secs * 1_000_000_000 + nanos) as nat),
{
    let total: u128 = secs as u128 * 1_000_000_000 + nanos as u128;
    let mut out = String::new();
    if total < 1_000_000 {
        let rounded = round_to_nearest(total, 1_000_000);
        proof {
            reveal_with_fuel(pow10, 4);
        }
        append_decimal(&mut out, rounded / 1000);
        out.append(".");
        append_padded(&mut out, rounded, 3);
    } else {
        let rounded = round_to_nearest(total, 10_000_000);
        proof {
            reveal_with_fuel(pow10, 3);
        }
        append_decimal(&mut out, rounded / 100);
        out.append(".");
        append_padded(&mut out, rounded, 2);
    }
    out.append("s");
    out
}

/// Divides `n` by `unit` and rounds to the nearest integer, a tie to the even one.
fn round_to_nearest(n: u128, unit: u128) -> (r: u128)
    requires
        0 < unit <= 10_000_000,
        n < u128::MAX,
    ensures
        r == nearest(n as nat, unit as nat),
{
    let q = n / unit;
    let rest = n % unit;
    if 2 * rest > unit || (2 * rest == unit && q % 2 == 1) {
        q + 1
    } else {
        q
    }
}

/// Builds the line that opens a tool call from its name and its displayed arguments.
pub fn tool_start_text(name: &str, args: &str) -> (r: String)
    ensures
        r@ == tool_start_line(name@, args@),
{
    let mut out = String::from_str("┌─ ");
    out.append(name);
    out.append(" ");
    out.append(args);
    out.append("\n");
    out
}

/// Builds the line that closes a tool call from its name, its displayed duration, the
/// token count and what follows it.
pub fn tool_result_text(name: &str, duration: &str, tokens: u32, suffix: &str) -> (r: String)
    ensures
        r@ == tool_result_line(name@, duration@, tokens as nat, suffix@),
{
    let mut out = String::from_str("└─ ");
    out.append(name);
    out.append(" ");
    out.append(duration);
    out.append(" ~");
    append_decimal(&mut out, tokens as u128);
    out.append(" tok");
    out.append(suffix);
    out
}

/// Builds the line that details a tool's error.
pub fn error_detail_text(message: &str) -> (r: String)
    ensures
        r@ == error_detail_line(message@),
{
    let mut out = String::from_str("  └─ error: ");
    out.append(message);
    out
}

/// Builds the message that announces a retry after `delay_secs` whole seconds.
pub fn retry_text(reason: &str, delay_secs: u64, attempt: u32, max_attempts: u32) -> (r: String)
    ensures
        r@ == retry_line(reason@, delay_secs as nat, attempt as nat, max_attempts as nat),
{
    let mut out = String::from_str("[");
    out.append(reason);
    out.append(": retrying in ");
    append_decimal(&mut out, delay_secs as u128);
    out.append("s (attempt ");
    append_decimal(&mut out, attempt as u128);
    out.append("/");
    append_decimal(&mut out, max_attempts as u128);
    out.append(")]");
    out
}

/// Builds the message that reports a cancelled task behind its mark.
pub fn cancelled_text(mark: &str) -> (r: String)
    ensures
        r@ == cancelled_line(mark@),
{
    let mut out = String::from_str(mark);
    out.append(" task cancelled by client");
    out
}

/// Builds the warning about the context window from the percentage as it is displayed.
/// A critical warning also suggests to clear the context.
pub fn context_warning_text(percent: &str, critical: bool) -> (r: String)
    ensures
        r@ == context_warning_line(percent@, critical),
{
    let mut out = String::from_str("WARNING: Context window at ");
    out.append(percent);
    out.append("%.");
    if critical {
        out.append(" Use /clear to reset.");
    }
    out
}

/// Estimates the tokens of a text as a quarter of its characters.
pub fn count_tokens(text: &str) -> (r: u32)
    ensures
        r == token_estimate(text@),
{
    let quarter: u64 = (text.unicode_len() / CHARS_PER_TOKEN) as u64;
    (quarter % 0x1_0000_0000) as u32
}

/// Formats the line that opens a tool call: the styled name and the displayed arguments,
/// ended by one line feed.
pub fn format_tool_executing(name: &str, args: &Value) -> (r: String)
    ensures
        is_tool_start(r@, name@, tool_args_text(name@, *args)),
{
    let args_str = format_tool_args(name, args);
    let styled = cyan(name);
    tool_start_text(styled.as_str(), args_str.as_str())
}

/// Formats the line that closes a tool call: the styled name, the styled duration, the
/// estimated tokens and, after an error, a styled mark.
pub fn format_tool_result(name: &str, duration: Duration, estimated_tokens: u32, has_error: bool) -> (r:
    String)
    ensures
        is_tool_result(r@, name@, duration_nanos(duration), estimated_tokens as nat, has_error),
{
    let error_suffix = if has_error {
        bright_red_bold(" ERROR")
    } else {
        String::new()
    };
    let duration_str = duration_text(duration.as_secs(), duration.subsec_nanos());
    let styled_name = cyan(name);
    let styled_duration = yellow(duration_str.as_str());
    tool_result_text(
        styled_name.as_str(),
        styled_duration.as_str(),
        estimated_tokens,
        error_suffix.as_str(),
    )
}

/// Formats the line that details a tool's error, shown below the closing line.
pub fn format_error_detail(error_message: &str) -> (r: String)
    ensures
        is_error_detail(r@, error_message@),
{
    let styled = dimmed(error_message);
    error_detail_text(styled.as_str())
}

/// Formats the message that announces a retry after the whole seconds of `delay`.
pub fn format_retry(attempt: u32, max_attempts: u32, delay: Duration, error: &str) -> (r: String)
    ensures
        is_retry(r@, error@, duration_secs(delay) as nat, attempt as nat, max_attempts as nat),
{
    let styled = bright_yellow(error);
    retry_text(styled.as_str(), delay.as_secs(), attempt, max_attempts)
}

/// Formats an error message: its text, styled.
pub fn format_error_message(msg: &str) -> (r: String)
    ensures
        is_styling(r@, "31"@, msg@),
{
    red(msg)
}

/// The message shown when an interrupt arrives.
pub fn format_ctrl_c() -> (r: &'static str)
    ensures
        r@ == "[ctrl-c received]"@,
{
    "[ctrl-c received]"
}

/// Formats the message that reports a cancelled task, with a styled mark.
pub fn format_cancelled() -> (r: String)
    ensures
        is_cancelled(r@),
{
    let mark = red("ABORTED");
    cancelled_text(mark.as_str())
}

/// Estimates the tokens of a JSON value from its compact text.
pub fn estimate_tokens(value: &Value) -> (r: u32)
    ensures
        r == token_estimate(json_text(*value)),
{
    let text = value_to_text(value);
    count_tokens(text.as_str())
}

/// The mark that follows the token count after an error, and nothing otherwise.
pub open spec fn error_mark(has_error: bool) -> Seq<char> {
    if has_error {
        " ERROR"@
    } else {
        Seq::empty()
    }
}

/// A text of digits holds no escape character.
proof fn lemma_digits_have_no_escape(s: Seq<char>)
    requires
        is_digits(s),
    ensures
        !s.contains(ESC),
{
    assert forall|i: int| 0 <= i < s.len() implies s[i] != ESC by {}
}

/// The display of an elapsed time holds no escape character.
pub proof fn lemma_seconds_text_has_no_escape(nanos: nat)
    ensures
        !seconds_text(nanos).contains(ESC),
{
    reveal_strlit(".");
    reveal_strlit("s");
    let (n, places) = if nanos < 1_000_000 {
        (nearest(nanos, 1_000_000), 3nat)
    } else {
        (nearest(nanos, 10_000_000), 2nat)
    };
    let whole = decimal(n / pow10(places));
    let part = padded(n, places);
    lemma_decimal_is_digits(n / pow10(places));
    lemma_padded_is_digits(n, places);
    lemma_digits_have_no_escape(whole);
    lemma_digits_have_no_escape(part);
    lemma_concat_has_no_escape(whole, "."@);
    lemma_concat_has_no_escape(whole + "."@, part);
    lemma_concat_has_no_escape(whole + "."@ + part, "s"@);
}

/// The content of the opening line of a tool call is the plain line: the styling of the
/// name leaves no trace in it.
pub proof fn lemma_tool_start_content(line: Seq<char>, name: Seq<char>, args: Seq<char>)
    requires
        is_tool_start(line, name, args),
        !name.contains(ESC),
        !args.contains(ESC),
    ensures
        content(line) == tool_start_line(name, args),
{
    let n = choose|n: Seq<char>|
        line == #[trigger] tool_start_line(n, args) && is_styling(n, "36"@, name);
    reveal_strlit("36");
    reveal_strlit("┌─ ");
    reveal_strlit(" ");
    reveal_strlit("\n");
    lemma_styling_shows_text(n, "36"@, name);
    lemma_plain_text_shows_itself("┌─ "@);
    lemma_shows_concat("┌─ "@, "┌─ "@, n, name);
    lemma_shows_before_plain_text("┌─ "@ + n, "┌─ "@ + name, " "@);
    lemma_shows_before_plain_text("┌─ "@ + n + " "@, "┌─ "@ + name + " "@, args);
    lemma_shows_before_plain_text(
        "┌─ "@ + n + " "@ + args,
        "┌─ "@ + name + " "@ + args,
        "\n"@,
    );
}

/// The content of the closing line of a tool call is the plain line: the name, the
/// duration, the token count and, after an error, the mark.
pub proof fn lemma_tool_result_content(
    line: Seq<char>,
    name: Seq<char>,
    nanos: nat,
    tokens: nat,
    has_error: bool,
)
    requires
        is_tool_result(line, name, nanos, tokens, has_error),
        !name.contains(ESC),
    ensures
        content(line) == tool_result_line(name, seconds_text(nanos), tokens, error_mark(has_error)),
{
    let (n, d, e) = choose|n: Seq<char>, d: Seq<char>, e: Seq<char>|
        {
            &&& line == #[trigger] tool_result_line(n, d, tokens, e)
            &&& is_styling(n, "36"@, name)
            &&& is_styling(d, "33"@, seconds_text(nanos))
            &&& if has_error {
                is_styling(e, "1;91"@, " ERROR"@)
            } else {
                e == Seq::<char>::empty()
            }
        };
    let duration = seconds_text(nanos);
    let mark = error_mark(has_error);
    reveal_strlit("36");
    reveal_strlit("33");
    reveal_strlit("1;91");
    reveal_strlit(" ERROR");
    reveal_strlit("└─ ");
    reveal_strlit(" ");
    reveal_strlit(" ~");
    reveal_strlit(" tok");
    lemma_seconds_text_has_no_escape(nanos);
    lemma_decimal_is_digits(tokens);
    lemma_digits_have_no_escape(decimal(tokens));
    lemma_styling_shows_text(n, "36"@, name);
    lemma_styling_shows_text(d, "33"@, duration);
    if has_error {
        lemma_styling_shows_text(e, "1;91"@, " ERROR"@);
    } else {
        lemma_plain_text_shows_itself(e);
    }
    let a1 = "└─ "@;
    lemma_plain_text_shows_itself(a1);
    lemma_shows_concat(a1, a1, n, name);
    let (a2, b2) = (a1 + n, a1 + name);
    lemma_shows_before_plain_text(a2, b2, " "@);
    let (a3, b3) = (a2 + " "@, b2 + " "@);
    lemma_shows_concat(a3, b3, d, duration);
    let (a4, b4) = (a3 + d, b3 + duration);
    lemma_shows_before_plain_text(a4, b4, " ~"@);
    let (a5, b5) = (a4 + " ~"@, b4 + " ~"@);
    lemma_shows_before_plain_text(a5, b5, decimal(tokens));
    let (a6, b6) = (a5 + decimal(tokens), b5 + decimal(tokens));
    lemma_shows_before_plain_text(a6, b6, " tok"@);
    let (a7, b7) = (a6 + " tok"@, b6 + " tok"@);
    lemma_shows_concat(a7, b7, e, mark);
}

/// The content of the error detail line is the plain line.
pub proof fn lemma_error_detail_content(line: Seq<char>, message: Seq<char>)
    requires
        is_error_detail(line, message),
        !message.contains(ESC),
    ensures
        content(line) == error_detail_line(message),
{
    let m = choose|m: Seq<char>|
        line == #[trigger] error_detail_line(m) && is_styling(m, "2"@, message);
    reveal_strlit("2");
    reveal_strlit("  └─ error: ");
    lemma_styling_shows_text(m, "2"@, message);
    lemma_plain_text_shows_itself("  └─ error: "@);
    lemma_shows_concat("  └─ error: "@, "  └─ error: "@, m, message);
}

/// The content of the retry message is the plain message.
pub proof fn lemma_retry_content(
    line: Seq<char>,
    reason: Seq<char>,
    delay_secs: nat,
    attempt: nat,
    max_attempts: nat,
)
    requires
        is_retry(line, reason, delay_secs, attempt, max_attempts),
        !reason.contains(ESC),
    ensures
        content(line) == retry_line(reason, delay_secs, attempt, max_attempts),
{
    let e = choose|e: Seq<char>|
        line == #[trigger] retry_line(e, delay_secs, attempt, max_attempts) && is_styling(
            e,
            "93"@,
            reason,
        );
    reveal_strlit("93");
    reveal_strlit("[");
    reveal_strlit(": retrying in ");
    reveal_strlit("s (attempt ");
    reveal_strlit("/");
    reveal_strlit(")]");
    lemma_decimal_is_digits(delay_secs);
    lemma_decimal_is_digits(attempt);
    lemma_decimal_is_digits(max_attempts);
    lemma_digits_have_no_escape(decimal(delay_secs));
    lemma_digits_have_no_escape(decimal(attempt));
    lemma_digits_have_no_escape(decimal(max_attempts));
    lemma_styling_shows_text(e, "93"@, reason);
    let a1 = "["@;
    lemma_plain_text_shows_itself(a1);
    lemma_shows_concat(a1, a1, e, reason);
    let (a2, b2) = (a1 + e, a1 + reason);
    lemma_shows_before_plain_text(a2, b2, ": retrying in "@);
    let (a3, b3) = (a2 + ": retrying in "@, b2 + ": retrying in "@);
    lemma_shows_before_plain_text(a3, b3, decimal(delay_secs));
    let (a4, b4) = (a3 + decimal(delay_secs), b3 + decimal(delay_secs));
    lemma_shows_before_plain_text(a4, b4, "s (attempt "@);
    let (a5, b5) = (a4 + "s (attempt "@, b4 + "s (attempt "@);
    lemma_shows_before_plain_text(a5, b5, decimal(attempt));
    let (a6, b6) = (a5 + decimal(attempt), b5 + decimal(attempt));
    lemma_shows_before_plain_text(a6, b6, "/"@);
    let (a7, b7) = (a6 + "/"@, b6 + "/"@);
    lemma_shows_before_plain_text(a7, b7, decimal(max_attempts));
    let (a8, b8) = (a7 + decimal(max_attempts), b7 + decimal(max_attempts));
    lemma_shows_before_plain_text(a8, b8, ")]"@);
}

/// The content of the cancellation message is the constant phrase.
pub proof fn lemma_cancelled_content(line: Seq<char>)
    requires
        is_cancelled(line),
    ensures
        content(line) == "ABORTED task cancelled by client"@,
{
    let m = choose|m: Seq<char>|
        line == #[trigger] cancelled_line(m) && is_styling(m, "31"@, "ABORTED"@);
    reveal_strlit("31");
    reveal_strlit("ABORTED");
    reveal_strlit(" task cancelled by client");
    reveal_strlit("ABORTED task cancelled by client");
    lemma_styling_shows_text(m, "31"@, "ABORTED"@);
    lemma_shows_before_plain_text(m, "ABORTED"@, " task cancelled by client"@);
}

/// The content of a formatted error message is the message.
pub proof fn lemma_error_message_content(line: Seq<char>, msg: Seq<char>)
    requires
        is_styling(line, "31"@, msg),
        !msg.contains(ESC),
    ensures
        content(line) == msg,
{
    reveal_strlit("31");
    lemma_styling_shows_text(line, "31"@, msg);
}

} // verus!
