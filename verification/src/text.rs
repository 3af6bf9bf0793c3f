//! The wording of the heartbeat notifications.

use vstd::prelude::*;
use vstd::string::*;
use crate::time::{secs_of, whole_secs};

verus! {

/// The contents of a list of strings.
pub open spec fn text_views(texts: Seq<String>) -> Seq<Seq<char>> {
    Seq::new(texts.len(), |i: int| texts[i]@)
}

/// The character of the decimal digit `d`.
pub open spec fn digit_char(d: int) -> char {
    if d == 0 {
        '0'
    } else if d == 1 {
        '1'
    } else if d == 2 {
        '2'
    } else if d == 3 {
        '3'
    } else if d == 4 {
        '4'
    } else if d == 5 {
        '5'
    } else if d == 6 {
        '6'
    } else if d == 7 {
        '7'
    } else if d == 8 {
        '8'
    } else {
        '9'
    }
}

/// The decimal numeral of `n`, without leading zeros.
pub open spec fn decimal(n: nat) -> Seq<char>
    decreases n,
{
    if n < 10 {
        seq![digit_char(n as int)]
    } else {
        decimal(n / 10).push(digit_char((n % 10) as int))
    }
}

/// How `std::time::Duration` prints, with `{:?}`, a span of `nanos`
/// nanoseconds.
pub uninterp spec fn duration_text(nanos: u64) -> Seq<char>;

/// The notification for a heartbeat that has become overdue: the rule's
/// prefix, its pattern, and the time since its last line.
pub open spec fn missed_message(prefix: Seq<char>, pattern: Seq<char>, elapsed: u64) -> Seq<char> {
    prefix + " Heartbeat missed for pattern '"@ + pattern + "'. Last seen "@ + duration_text(
        elapsed,
    ) + " ago."@
}

/// The notification for a heartbeat that is back: the whole seconds since
/// the miss was reported, and the rule's pattern.
pub open spec fn recovered_message(pattern: Seq<char>, downtime: u64) -> Seq<char> {
    "\u{1FA79} Heartbeat recovered in "@ + decimal(whole_secs(downtime) as nat)
        + "s for pattern '"@ + pattern + "'."@
}

/// Formats a span with the `Debug` implementation of
/// `std::time::Duration`, as in `format!("{:?}", span)`. The contract only
/// names the outcome: the same span always prints the same.
#[verifier::external_body]
fn format_duration(nanos: u64) -> (text: String)
    ensures
        text@ == duration_text(nanos),
{
    format!("{:?}", std::time::Duration::from_nanos(nanos))
}

/// The one-character string of the decimal digit `d`.
fn digit_str(d: u64) -> (text: &'static str)
    requires
        d < 10,
    ensures
        text@ == seq![digit_char(d as int)],
{
    proof {
        reveal_strlit("0");
        reveal_strlit("1");
        reveal_strlit("2");
        reveal_strlit("3");
        reveal_strlit("4");
        reveal_strlit("5");
        reveal_strlit("6");
        reveal_strlit("7");
        reveal_strlit("8");
        reveal_strlit("9");
    }
    let text = if d == 0 {
        "0"
    } else if d == 1 {
        "1"
    } else if d == 2 {
        "2"
    } else if d == 3 {
        "3"
    } else if d == 4 {
        "4"
    } else if d == 5 {
        "5"
    } else if d == 6 {
        "6"
    } else if d == 7 {
        "7"
    } else if d == 8 {
        "8"
    } else {
        "9"
    };
    assert(text@ =~= seq![digit_char(d as int)]);
    text
}

/// Appends the decimal numeral of `n` to `out`.
pub fn push_decimal(out: &mut String, n: u64)
    ensures
        final(out)@ == old(out)@ + decimal(n as nat),
    decreases n,
{
    if n >= 10 {
        push_decimal(out, n / 10);
    }
    out.append(digit_str(n % 10));
    assert(final(out)@ =~= old(out)@ + decimal(n as nat));
}

/// The decimal numeral of `n`.
pub fn decimal_string(n: u64) -> (text: String)
    ensures
        text@ == decimal(n as nat),
{
    let mut text = String::new();
    push_decimal(&mut text, n);
    assert(text@ =~= decimal(n as nat));
    text
}

/// The text of the notification for a heartbeat that has become overdue.
pub fn missed_text(prefix: &str, pattern: &str, elapsed: u64) -> (text: String)
    ensures
        text@ == missed_message(prefix@, pattern@, elapsed),
{
    let mut text = prefix.to_owned();
    text.append(" Heartbeat missed for pattern '");
    text.append(pattern);
    text.append("'. Last seen ");
    let span = format_duration(elapsed);
    text.append(span.as_str());
    text.append(" ago.");
    text
}

/// The text of the notification for a heartbeat that is back.
pub fn recovered_text(pattern: &str, downtime: u64) -> (text: String)
    ensures
        text@ == recovered_message(pattern@, downtime),
{
    let mut text = "\u{1FA79} Heartbeat recovered in ".to_owned();
    push_decimal(&mut text, secs_of(downtime));
    text.append("s for pattern '");
    text.append(pattern);
    text.append("'.");
    text
}

} // verus!
