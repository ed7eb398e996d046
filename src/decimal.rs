//! Decimal numerals: writing page numbers and reading the next-page header.

use vstd::prelude::*;

verus! {

/// The character of a decimal digit.
pub open spec fn digit_char(d: nat) -> char {
    if d == 0 { '0' }
    else if d == 1 { '1' }
    else if d == 2 { '2' }
    else if d == 3 { '3' }
    else if d == 4 { '4' }
    else if d == 5 { '5' }
    else if d == 6 { '6' }
    else if d == 7 { '7' }
    else if d == 8 { '8' }
    else { '9' }
}

/// The decimal numeral of `n`, without leading zeros.
pub open spec fn decimal(n: nat) -> Seq<char>
    decreases n,
{
    if n < 10 {
        seq![digit_char(n)]
    } else {
        decimal(n / 10).push(digit_char(n % 10))
    }
}

fn digit_str(d: u32) -> (r: &'static str)
    requires
        d < 10,
    ensures
        r@ == seq![digit_char(d as nat)],
{
    proof {
        reveal_strlit("0");
        reveal_strlit("1");
        reveal_strlit("2");
        reveal_strlit("3");
        reveal_strlit("4");
        reveal_strlit("5");
        reveal_strlit("6");
        reveal_strlit("7");
        reveal_strlit("8");
        reveal_strlit("9");
    }
    match d {
        0 => "0",
        1 => "1",
        2 => "2",
        3 => "3",
        4 => "4",
        5 => "5",
        6 => "6",
        7 => "7",
        8 => "8",
        _ => "9",
    }
}

/// Appends the decimal numeral of `n` to `s`.
pub fn push_decimal(s: &mut String, n: u32)
    ensures
        final(s)@ == old(s)@ + decimal(n as nat),
    decreases n,
{
    if n >= 10 {
        push_decimal(s, n / 10);
    }
    s.append(digit_str(n % 10));
    assert(final(s)@ =~= old(s)@ + decimal(n as nat));
}

/// Whether a byte is an ASCII decimal digit.
pub open spec fn is_digit(b: u8) -> bool {
    0x30 <= b <= 0x39
}

/// Whether `s` is a non-empty run of decimal digits.
pub open spec fn is_numeral(s: Seq<u8>) -> bool {
    s.len() > 0 && forall|i: int| 0 <= i < s.len() ==> is_digit(#[trigger] s[i])
}

/// The value of a run of decimal digits, leading zeros allowed.
pub open spec fn numeral_value(s: Seq<u8>) -> nat
    decreases s.len(),
{
    if s.len() == 0 {
        0
    } else {
        numeral_value(s.drop_last()) * 10 + (s.last() - 0x30) as nat
    }
}

/// The digits of a header value, after an optional leading `+`.
pub open spec fn unsigned_digits(v: Seq<u8>) -> Seq<u8> {
    if v.len() > 0 && v[0] == 0x2b { v.drop_first() } else { v }
}

/// Whether a header value names a page: a decimal number, optionally
/// preceded by `+`, between 1 and `u32::MAX`.
///
/// An empty value, which the server sends on the last page, names no page;
/// neither does any other value that is not such a number. Those end the
/// pagination just as a missing header does.
pub open spec fn names_page(v: Seq<u8>) -> bool {
    let d = unsigned_digits(v);
    is_numeral(d) && 1 <= numeral_value(d) <= u32::MAX
}

/// Whether the values of the next-page header announce another page: there
/// is exactly one value, and it names a page.
pub open spec fn announces_next(values: Seq<Seq<u8>>) -> bool {
    values.len() == 1 && names_page(values[0])
}

proof fn lemma_prefix_value_le(s: Seq<u8>, i: int)
    requires
        0 <= i <= s.len(),
    ensures
        numeral_value(s.take(i)) <= numeral_value(s),
    decreases s.len() - i,
{
    if i < s.len() {
        lemma_prefix_value_le(s, i + 1);
        assert(s.take(i + 1).drop_last() =~= s.take(i));
    } else {
        assert(s.take(i) =~= s);
    }
}

fn names_page_exec(v: &Vec<u8>) -> (r: bool)
    ensures
        r == names_page(v@),
{
    let start: usize = if v.len() > 0 && v[0] == 0x2b { 1 } else { 0 };
    let ghost d = unsigned_digits(v@);
    assert(d =~= v@.subrange(start as int, v@.len() as int));
    if start >= v.len() {
        return false;
    }
    let mut acc: u64 = 0;
    let mut i: usize = start;
    while i < v.len()
        invariant
            start <= i <= v.len(),
            d == v@.subrange(start as int, v@.len() as int),
            d == unsigned_digits(v@),
            d.len() > 0,
            acc == numeral_value(d.take(i - start)),
            acc <= u32::MAX,
            forall|j: int| 0 <= j < i - start ==> is_digit(#[trigger] d[j]),
        decreases v.len() - i,
    {
        let b = v[i];
        if b < 0x30 || b > 0x39 {
            assert(!is_digit(d[i - start]));
            assert(!is_numeral(d));
            return false;
        }
        assert(d.take(i - start + 1).drop_last() =~= d.take(i - start));
        acc = acc * 10 + (b - 0x30) as u64;
        i = i + 1;
        if acc > u32::MAX as u64 {
            proof {
                lemma_prefix_value_le(d, i - start);
            }
            return false;
        }
    }
    assert(d.take(d.len() as int) =~= d);
    acc >= 1
}

/// Reads the values of the next-page header, as they came in the response
/// (no value where the header is missing), and says whether another page
/// follows.
pub fn announces_next_page(values: &Vec<Vec<u8>>) -> (r: bool)
    ensures
        r == announces_next(values@.map_values(|v: Vec<u8>| v@)),
{
    if values.len() != 1 {
        return false;
    }
    names_page_exec(&values[0])
}

} // verus!
