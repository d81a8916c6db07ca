//! Text building blocks: joining, comparing, decimal rendering and case
//! folding.

use vstd::prelude::*;

verus! {

/// The lower-case form that the standard library gives to a text.
pub uninterp spec fn lowercase_of(text: Seq<char>) -> Seq<char>;

/// The upper-case form that the standard library gives to a text.
pub uninterp spec fn uppercase_of(text: Seq<char>) -> Seq<char>;

/// Calls `str::to_lowercase`. The contract only gives the result its name,
/// [`lowercase_of`]: the Unicode case mapping itself is taken on trust.
#[verifier::external_body]
pub(crate) fn to_lowercase(text: &str) -> (folded: String)
    ensures
        folded@ == lowercase_of(text@),
{
    text.to_lowercase()
}

/// Calls `str::to_uppercase`. The contract only gives the result its name,
/// [`uppercase_of`]: the Unicode case mapping itself is taken on trust.
#[verifier::external_body]
pub(crate) fn to_uppercase(text: &str) -> (folded: String)
    ensures
        folded@ == uppercase_of(text@),
{
    text.to_uppercase()
}

/// Whether two texts hold the same characters.
pub fn same_text(left: &str, right: &str) -> (same: bool)
    ensures
        same == (left@ == right@),
{
    let a = String::from_str(left);
    let b = String::from_str(right);
    a == b
}

/// `head` followed by `tail`.
pub fn joined(head: &str, tail: &str) -> (text: String)
    ensures
        text@ == head@ + tail@,
{
    let mut text = String::from_str(head);
    text.append(tail);
    text
}

/// A copy of an optional text.
pub fn copied_cell(cell: &Option<String>) -> (copy: Option<String>)
    ensures
        copy.deep_view() == cell.deep_view(),
{
    match cell {
        Some(text) => Some(text.clone()),
        None => None,
    }
}

/// The text of a cell, or the empty text for a null cell.
pub open spec fn text_or_empty(cell: Option<Seq<char>>) -> Seq<char> {
    match cell {
        Some(text) => text,
        None => Seq::empty(),
    }
}

/// The text of a cell, or the empty text for a null cell.
pub fn cell_text_or_empty(cell: &Option<String>) -> (text: String)
    ensures
        text@ == text_or_empty(cell.deep_view()),
{
    match cell {
        Some(text) => text.clone(),
        None => String::new(),
    }
}

/// The character of a decimal digit.
pub open spec fn digit_char(digit: nat) -> char {
    if digit == 0 {
        '0'
    } else if digit == 1 {
        '1'
    } else if digit == 2 {
        '2'
    } else if digit == 3 {
        '3'
    } else if digit == 4 {
        '4'
    } else if digit == 5 {
        '5'
    } else if digit == 6 {
        '6'
    } else if digit == 7 {
        '7'
    } else if digit == 8 {
        '8'
    } else {
        '9'
    }
}

/// The decimal digits of a number, most significant first, without leading
/// zeros.
pub open spec fn decimal_of(n: nat) -> Seq<char>
    decreases n,
{
    if n < 10 {
        seq![digit_char(n)]
    } else {
        decimal_of(n / 10).push(digit_char(n % 10))
    }
}

fn digit_text(digit: u64) -> (text: &'static str)
    requires
        digit < 10,
    ensures
        text@ == seq![digit_char(digit as nat)],
{
    proof {
        reveal_strlit("0");
        reveal_strlit("1");
        reveal_strlit("2");
        reveal_strlit("3");
        reveal_strlit("4");
        reveal_strlit("5");
        reveal_strlit("6");
        reveal_strlit("7");
        reveal_strlit("8");
        reveal_strlit("9");
    }
    let text = if digit == 0 {
        "0"
    } else if digit == 1 {
        "1"
    } else if digit == 2 {
        "2"
    } else if digit == 3 {
        "3"
    } else if digit == 4 {
        "4"
    } else if digit == 5 {
        "5"
    } else if digit == 6 {
        "6"
    } else if digit == 7 {
        "7"
    } else if digit == 8 {
        "8"
    } else {
        "9"
    };
    assert(text@ =~= seq![digit_char(digit as nat)]);
    text
}

/// The decimal rendering of a number without sign.
pub fn decimal_text(n: u64) -> (text: String)
    ensures
        text@ == decimal_of(n as nat),
    decreases n,
{
    if n < 10 {
        String::from_str(digit_text(n))
    } else {
        let mut text = decimal_text(n / 10);
        text.append(digit_text(n % 10));
        assert(text@ =~= decimal_of((n / 10) as nat).push(digit_char((n % 10) as nat)));
        text
    }
}

/// The decimal rendering of an integer: a minus sign before the digits of
/// a negative number.
pub open spec fn signed_decimal_of(n: int) -> Seq<char> {
    if n < 0 {
        seq!['-'] + decimal_of((-n) as nat)
    } else {
        decimal_of(n as nat)
    }
}

/// The decimal rendering of an integer.
pub fn integer_text(n: i64) -> (text: String)
    ensures
        text@ == signed_decimal_of(n as int),
{
    if n < 0 {
        let magnitude: u64 = ((-(n + 1)) as u64) + 1;
        proof {
            reveal_strlit("-");
        }
        let digits = decimal_text(magnitude);
        let text = joined("-", digits.as_str());
        assert(text@ =~= seq!['-'] + decimal_of((-n) as nat));
        text
    } else {
        decimal_text(n as u64)
    }
}

/// A text with every occurrence of `mark` written twice: the way a quote
/// character is written inside a quoted name or literal.
pub open spec fn doubled(text: Seq<char>, mark: char) -> Seq<char>
    decreases text.len(),
{
    if text.len() == 0 {
        Seq::empty()
    } else if text.last() == mark {
        doubled(text.drop_last(), mark).push(mark).push(mark)
    } else {
        doubled(text.drop_last(), mark).push(text.last())
    }
}

/// Writes every occurrence of `mark` in a text twice.
pub fn doubled_text(text: &str, mark: char) -> (out: String)
    ensures
        out@ == doubled(text@, mark),
{
    let n = text.unicode_len();
    let mut out = String::new();
    let mut i: usize = 0;
    assert(text@.take(0) =~= Seq::empty());
    while i < n
        invariant
            i <= n,
            n == text@.len(),
            out@ == doubled(text@.take(i as int), mark),
        decreases n - i,
    {
        let c = text.get_char(i);
        let piece = text.substring_char(i, i + 1);
        proof {
            assert(text@.take(i + 1).drop_last() =~= text@.take(i as int));
            assert(text@.take(i + 1).last() == text@[i as int]);
            assert(piece@ =~= seq![text@[i as int]]);
        }
        let ghost before = out@;
        out.append(piece);
        assert(out@ =~= before.push(c));
        if c == mark {
            out.append(piece);
            assert(out@ =~= before.push(mark).push(mark));
        }
        i += 1;
    }
    assert(text@.take(n as int) =~= text@);
    out
}

} // verus!
