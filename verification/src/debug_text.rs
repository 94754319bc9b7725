use vstd::prelude::*;
use crate::text::{decimal_chars, digit_char};

verus! {

/// What `{:?}` makes of a string: the text in double quotes, with the characters that
/// need it escaped.
pub uninterp spec fn debug_str(s: Seq<char>) -> Seq<char>;

/// Formats a string as `{:?}` does (with `format!`). Claimed: the result is a function
/// of the text alone, named `debug_str`.
#[verifier::external_body]
fn debug_quoted(s: &str) -> (quoted: String)
    ensures
        quoted@ == debug_str(s@),
{
    format!("{:?}", s)
}

/// Appends the `{:?}` form of a string to `out`.
pub fn push_debug_str(out: &mut String, s: &str)
    ensures
        final(out)@ == old(out)@ + debug_str(s@),
{
    let q = debug_quoted(s);
    out.append(q.as_str());
}

/// The `{:?}` form of a `bool`.
pub open spec fn bool_debug(b: bool) -> Seq<char> {
    if b {
        "true"@
    } else {
        "false"@
    }
}

/// Appends the `{:?}` form of a `bool` to `out`.
pub fn push_bool(out: &mut String, b: bool)
    ensures
        final(out)@ == old(out)@ + bool_debug(b),
{
    if b {
        out.append("true");
    } else {
        out.append("false");
    }
}

/// The decimal form of an integer, with a leading `-` when it is negative.
pub open spec fn signed_decimal_chars(n: int) -> Seq<char> {
    if n < 0 {
        "-"@ + decimal_chars((-n) as nat)
    } else {
        decimal_chars(n as nat)
    }
}

/// The one-character text of a decimal digit.
fn digit_str(d: u64) -> (s: &'static str)
    requires
        d < 10,
    ensures
        s@ == seq![digit_char(d as int)],
{
    proof {
        reveal_strlit("0");
        reveal_strlit("1");
        reveal_strlit("2");
        reveal_strlit("3");
        reveal_strlit("4");
        reveal_strlit("5");
        reveal_strlit("6");
        reveal_strlit("7");
        reveal_strlit("8");
        reveal_strlit("9");
    }
    match d {
        0 => "0",
        1 => "1",
        2 => "2",
        3 => "3",
        4 => "4",
        5 => "5",
        6 => "6",
        7 => "7",
        8 => "8",
        _ => "9",
    }
}

/// Appends the decimal digits of `n` to `out`.
pub fn push_decimal_str(out: &mut String, n: u64)
    ensures
        final(out)@ == old(out)@ + decimal_chars(n as nat),
    decreases n,
{
    if n >= 10 {
        push_decimal_str(out, n / 10);
    }
    out.append(digit_str(n % 10));
    assert(final(out)@ =~= old(out)@ + decimal_chars(n as nat));
}

/// Appends the decimal form of `n`, signed, to `out`.
pub fn push_signed_decimal_str(out: &mut String, n: i64)
    ensures
        final(out)@ == old(out)@ + signed_decimal_chars(n as int),
{
    if n < 0 {
        out.append("-");
        let magnitude: u64 = (-(n + 1)) as u64 + 1;
        push_decimal_str(out, magnitude);
        assert(final(out)@ =~= old(out)@ + signed_decimal_chars(n as int));
    } else {
        push_decimal_str(out, n as u64);
    }
}

/// The items of a list, each in its `{:?}` form, separated by `, `.
pub open spec fn debug_items(items: Seq<Seq<char>>) -> Seq<char>
    decreases items.len(),
{
    if items.len() == 0 {
        Seq::empty()
    } else if items.len() == 1 {
        debug_str(items[0])
    } else {
        debug_items(items.drop_last()) + ", "@ + debug_str(items.last())
    }
}

/// The `{:?}` form of a list of strings.
pub open spec fn debug_list(items: Seq<Seq<char>>) -> Seq<char> {
    "["@ + debug_items(items) + "]"@
}

/// Appends the `{:?}` form of a list of strings to `out`.
pub fn push_debug_list(out: &mut String, items: &Vec<String>)
    ensures
        final(out)@ == old(out)@ + debug_list(items@.map_values(|s: String| s@)),
{
    let ghost views = items@.map_values(|s: String| s@);
    let ghost start = out@;
    out.append("[");
    let mut i: usize = 0;
    while i < items.len()
        invariant
            i <= items@.len(),
            views == items@.map_values(|s: String| s@),
            out@ == start + "["@ + debug_items(views.take(i as int)),
        decreases items.len() - i,
    {
        let ghost before = out@;
        assert(views.take(i + 1).drop_last() =~= views.take(i as int));
        assert(views.take(i + 1).last() == items@[i as int]@);
        if i > 0 {
            out.append(", ");
        }
        push_debug_str(out, items[i].as_str());
        i = i + 1;
        if i == 1 {
            assert(views.take(1) =~= seq![views[0]]);
            assert(out@ =~= start + "["@ + debug_items(views.take(i as int)));
        } else {
            assert(out@ =~= start + "["@ + debug_items(views.take(i as int)));
        }
    }
    assert(views.take(items@.len() as int) =~= views);
    out.append("]");
    assert(out@ =~= start + debug_list(views));
}

} // verus!
