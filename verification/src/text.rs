//! Small verified text-building blocks: appending single characters and
//! decimal renderings of integers, and substring containment.

use vstd::prelude::*;

verus! {

/// Relies on `String::push`: appends exactly one character to the string.
#[verifier::external_body]
pub fn push_char(s: &mut String, c: char)
    ensures
        final(s)@ == old(s)@ + seq![c],
{
    s.push(c);
}

/// The decimal digit character for a value below ten.
pub open spec fn spec_digit(d: nat) -> char {
    if d == 0 {
        '0'
    } else if d == 1 {
        '1'
    } else if d == 2 {
        '2'
    } else if d == 3 {
        '3'
    } else if d == 4 {
        '4'
    } else if d == 5 {
        '5'
    } else if d == 6 {
        '6'
    } else if d == 7 {
        '7'
    } else if d == 8 {
        '8'
    } else {
        '9'
    }
}

/// The usual decimal rendering of a natural number, most significant digit
/// first, with no leading zeros (a single `'0'` for zero).
pub open spec fn spec_decimal(n: nat) -> Seq<char>
    decreases n,
{
    if n < 10 {
        seq![spec_digit(n)]
    } else {
        spec_decimal(n / 10) + seq![spec_digit(n % 10)]
    }
}

fn digit_char(d: u32) -> (c: char)
    requires
        d < 10,
    ensures
        c == spec_digit(d as nat),
{
    match d {
        0 => '0',
        1 => '1',
        2 => '2',
        3 => '3',
        4 => '4',
        5 => '5',
        6 => '6',
        7 => '7',
        8 => '8',
        _ => '9',
    }
}

/// Appends the decimal rendering of `n` to `s`.
pub fn push_decimal(s: &mut String, n: u32)
    ensures
        final(s)@ == old(s)@ + spec_decimal(n as nat),
    decreases n,
{
    if n < 10 {
        let c = digit_char(n);
        push_char(s, c);
    } else {
        push_decimal(s, n / 10);
        let c = digit_char(n % 10);
        push_char(s, c);
    }
}

/// `needle` occurs somewhere inside `hay`.
pub open spec fn contains_seq(hay: Seq<char>, needle: Seq<char>) -> bool {
    exists|i: int|
        0 <= i && i + needle.len() <= hay.len() && #[trigger] hay.subrange(
            i,
            i + needle.len() as int,
        ) == needle
}

/// Anything of the shape `before + needle + after` contains `needle`.
pub proof fn lemma_concat_contains(before: Seq<char>, needle: Seq<char>, after: Seq<char>)
    ensures
        contains_seq(before + needle + after, needle),
{
    let hay = before + needle + after;
    let i = before.len() as int;
    assert(hay.subrange(i, i + needle.len() as int) =~= needle);
}

} // verus!
