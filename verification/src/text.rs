//! Small pieces of text that the views are built from: numbers in decimal,
//! flags, and titles cut to length.

use vstd::prelude::*;
use vstd::string::*;

verus! {

/// The character of a decimal digit.
pub open spec fn digit_char(d: nat) -> char
    recommends
        d < 10,
{
    if d == 0 {
        '0'
    } else if d == 1 {
        '1'
    } else if d == 2 {
        '2'
    } else if d == 3 {
        '3'
    } else if d == 4 {
        '4'
    } else if d == 5 {
        '5'
    } else if d == 6 {
        '6'
    } else if d == 7 {
        '7'
    } else if d == 8 {
        '8'
    } else {
        '9'
    }
}

/// A number written in decimal, without leading zeros.
pub open spec fn decimal(n: nat) -> Seq<char>
    decreases n,
{
    if n < 10 {
        seq![digit_char(n)]
    } else {
        decimal(n / 10).push(digit_char(n % 10))
    }
}

/// A flag written as `true` or `false`.
pub open spec fn flag_text(flag: bool) -> Seq<char> {
    if flag {
        "true"@
    } else {
        "false"@
    }
}

fn digit_text(d: u64) -> (s: &'static str)
    requires
        d < 10,
    ensures
        s@ == seq![digit_char(d as nat)],
{
    proof {
        reveal_strlit("0");
        reveal_strlit("1");
        reveal_strlit("2");
        reveal_strlit("3");
        reveal_strlit("4");
        reveal_strlit("5");
        reveal_strlit("6");
        reveal_strlit("7");
        reveal_strlit("8");
        reveal_strlit("9");
    }
    let s = if d == 0 {
        "0"
    } else if d == 1 {
        "1"
    } else if d == 2 {
        "2"
    } else if d == 3 {
        "3"
    } else if d == 4 {
        "4"
    } else if d == 5 {
        "5"
    } else if d == 6 {
        "6"
    } else if d == 7 {
        "7"
    } else if d == 8 {
        "8"
    } else {
        "9"
    };
    assert(s@ =~= seq![digit_char(d as nat)]);
    s
}

/// Appends `n` in decimal to `out`.
pub fn push_decimal(out: &mut String, n: u64)
    ensures
        final(out)@ == old(out)@ + decimal(n as nat),
    decreases n,
{
    if n >= 10 {
        push_decimal(out, n / 10);
    }
    out.append(digit_text(n % 10));
    proof {
        if n >= 10 {
            assert(final(out)@ =~= old(out)@ + decimal(n as nat));
        } else {
            assert(final(out)@ =~= old(out)@ + decimal(n as nat));
        }
    }
}

/// `n` written in decimal.
pub fn decimal_string(n: u64) -> (s: String)
    ensures
        s@ == decimal(n as nat),
{
    let mut s = String::new();
    push_decimal(&mut s, n);
    assert(s@ =~= decimal(n as nat));
    s
}

/// `flag` written as `true` or `false`.
pub fn flag_string(flag: bool) -> (s: String)
    ensures
        s@ == flag_text(flag),
{
    if flag {
        String::from_str("true")
    } else {
        String::from_str("false")
    }
}

/// The lines into which the `textwrap` crate breaks `text` for lines of
/// `width` columns.
pub uninterp spec fn wrapped(text: Seq<char>, width: nat) -> Seq<Seq<char>>;

/// Calls `textwrap::wrap` with a plain width. Claimed of it: the lines depend
/// on the text and the width alone.
#[verifier::external_body]
pub(crate) fn wrap(text: &str, width: usize) -> (lines: Vec<String>)
    ensures
        lines.deep_view() == wrapped(text@, width as nat),
{
    textwrap::wrap(text, width).into_iter().map(|line| line.into_owned()).collect()
}

/// A title cut to `limit` characters, with three dots in place of what was
/// cut off; a title that fits stays as it is.
pub open spec fn shortened(title: Seq<char>, limit: nat) -> Seq<char> {
    if title.len() > limit {
        title.take(limit as int) + "..."@
    } else {
        title
    }
}

/// Cuts `title` to `limit` characters.
pub fn shorten(title: &str, limit: usize) -> (short: String)
    ensures
        short@ == shortened(title@, limit as nat),
{
    if title.unicode_len() > limit {
        let mut short = String::from_str(title.substring_char(0, limit));
        short.append("...");
        proof {
            assert(title@.subrange(0, limit as int) =~= title@.take(limit as int));
        }
        short
    } else {
        String::from_str(title)
    }
}

/// `text` with `mark` and a blank before it.
pub fn marked(mark: &str, text: &str) -> (out: String)
    ensures
        out@ == mark@ + " "@ + text@,
{
    let mut out = String::from_str(mark);
    out.append(" ");
    out.append(text);
    out
}

} // verus!
