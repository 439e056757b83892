//! Operations on text that the rest of the crate builds its strings with.

use vstd::prelude::*;
use vstd::string::*;

verus! {

/// `text` followed by `more`.
pub fn join(text: &str, more: &str) -> (joined: String)
    ensures
        joined@ == text@ + more@,
{
    String::from_str(text).concat(more)
}

/// Whether `text` begins with `prefix`.
pub fn starts_with(text: &str, prefix: &str) -> (found: bool)
    ensures
        found == prefix@.is_prefix_of(text@),
{
    let wanted = prefix.unicode_len();
    let given = text.unicode_len();
    if wanted > given {
        return false;
    }
    let mut at: usize = 0;
    while at < wanted
        invariant
            at <= wanted <= given,
            wanted == prefix@.len(),
            given == text@.len(),
            forall|i: int| 0 <= i < at ==> text@[i] == prefix@[i],
        decreases wanted - at,
    {
        if text.get_char(at) != prefix.get_char(at) {
            assert(text@.subrange(0, wanted as int)[at as int] != prefix@[at as int]);
            return false;
        }
        at += 1;
    }
    assert(prefix@ =~= text@.subrange(0, wanted as int));
    true
}

/// `text` without the copies of `prefix` that it begins with.
pub open spec fn without_leading(text: Seq<char>, prefix: Seq<char>) -> Seq<char>
    decreases text.len(),
{
    if prefix.len() > 0 && prefix.is_prefix_of(text) {
        without_leading(text.skip(prefix.len() as int), prefix)
    } else {
        text
    }
}

/// Removes from the start of `text` every copy of `prefix`, one after
/// another, until the rest no longer begins with it. An empty prefix removes
/// nothing.
pub fn trim_leading(text: &str, prefix: &str) -> (rest: String)
    ensures
        rest@ == without_leading(text@, prefix@),
{
    let step = prefix.unicode_len();
    let given = text.unicode_len();
    if step == 0 {
        return String::from_str(text);
    }
    let mut from: usize = 0;
    assert(text@.skip(0) =~= text@);
    loop
        invariant_except_break
            from <= given,
            given == text@.len(),
            step == prefix@.len(),
            step > 0,
            without_leading(text@, prefix@) == without_leading(text@.skip(from as int), prefix@),
        ensures
            from <= given,
            given == text@.len(),
            without_leading(text@, prefix@) == text@.skip(from as int),
        decreases given - from,
    {
        let rest = text.substring_char(from, given);
        assert(rest@ =~= text@.skip(from as int));
        if !starts_with(rest, prefix) {
            break ;
        }
        assert(rest@.skip(step as int) =~= text@.skip(from + step));
        from += step;
    }
    let rest = text.substring_char(from, given);
    assert(rest@ =~= text@.skip(from as int));
    String::from_str(rest)
}

/// The length of `text` without the copies of `last` that it ends with.
pub open spec fn trimmed_len(text: Seq<char>, last: char) -> nat
    decreases text.len(),
{
    if text.len() > 0 && text.last() == last {
        trimmed_len(text.drop_last(), last)
    } else {
        text.len()
    }
}

/// What is left of `text` when the copies of `last` at its end are taken
/// off: the longest prefix that does not end with `last`.
pub fn trim_trailing(text: &str, last: char) -> (kept: String)
    ensures
        kept@ == text@.take(trimmed_len(text@, last) as int),
        kept@.is_prefix_of(text@),
        kept@.len() == 0 || kept@.last() != last,
        forall|i: int| kept@.len() <= i < text@.len() ==> text@[i] == last,
{
    let given = text.unicode_len();
    let mut keep: usize = given;
    assert(text@.take(given as int) =~= text@);
    while keep > 0 && text.get_char(keep - 1) == last
        invariant
            keep <= given,
            given == text@.len(),
            trimmed_len(text@, last) == trimmed_len(text@.take(keep as int), last),
            forall|i: int| keep <= i < given ==> text@[i] == last,
        decreases keep,
    {
        assert(text@.take(keep as int).drop_last() =~= text@.take(keep - 1));
        keep -= 1;
    }
    let kept = text.substring_char(0, keep);
    assert(kept@ =~= text@.take(keep as int));
    String::from_str(kept)
}

/// The character that stands for a decimal digit.
pub open spec fn digit(value: nat) -> char {
    if value == 0 {
        '0'
    } else if value == 1 {
        '1'
    } else if value == 2 {
        '2'
    } else if value == 3 {
        '3'
    } else if value == 4 {
        '4'
    } else if value == 5 {
        '5'
    } else if value == 6 {
        '6'
    } else if value == 7 {
        '7'
    } else if value == 8 {
        '8'
    } else {
        '9'
    }
}

/// A number written in decimal, without sign or leading zeros.
pub open spec fn decimal(number: nat) -> Seq<char>
    decreases number,
{
    if number < 10 {
        seq![digit(number)]
    } else {
        decimal(number / 10).push(digit(number % 10))
    }
}

fn digit_text(value: u64) -> (text: &'static str)
    requires
        value < 10,
    ensures
        text@ == seq![digit(value as nat)],
{
    proof {
        reveal_strlit("0");
        reveal_strlit("1");
        reveal_strlit("2");
        reveal_strlit("3");
        reveal_strlit("4");
        reveal_strlit("5");
        reveal_strlit("6");
        reveal_strlit("7");
        reveal_strlit("8");
        reveal_strlit("9");
    }
    let text = if value == 0 {
        "0"
    } else if value == 1 {
        "1"
    } else if value == 2 {
        "2"
    } else if value == 3 {
        "3"
    } else if value == 4 {
        "4"
    } else if value == 5 {
        "5"
    } else if value == 6 {
        "6"
    } else if value == 7 {
        "7"
    } else if value == 8 {
        "8"
    } else {
        "9"
    };
    assert(text@ =~= seq![digit(value as nat)]);
    text
}

/// Writes a number in decimal.
pub fn to_decimal(number: u64) -> (text: String)
    ensures
        text@ == decimal(number as nat),
    decreases number,
{
    if number < 10 {
        String::from_str(digit_text(number))
    } else {
        let text = to_decimal(number / 10).concat(digit_text(number % 10));
        assert(text@ =~= decimal(number as nat));
        text
    }
}

} // verus!
