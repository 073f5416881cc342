//! Small operations on text that the gateway's rules are stated over.

use vstd::prelude::*;
use vstd::string::*;
use vstd::utf8::*;

verus! {

/// The number of bytes that `s` takes in UTF-8, which is what a length limit counts.
pub open spec fn byte_len(s: Seq<char>) -> nat {
    encode_utf8(s).len()
}

/// The number of bytes that `s` takes in UTF-8.
pub fn len(s: &str) -> (n: usize)
    ensures
        n == byte_len(s@),
{
    s.as_bytes().len()
}

/// `parts` joined into one text with `sep` between neighbours.
pub open spec fn joined(parts: Seq<Seq<char>>, sep: Seq<char>) -> Seq<char>
    decreases parts.len(),
{
    if parts.len() == 0 {
        Seq::empty()
    } else if parts.len() == 1 {
        parts[0]
    } else {
        joined(parts.drop_last(), sep) + sep + parts.last()
    }
}

/// The views of `parts`, in order.
pub open spec fn views(parts: Seq<String>) -> Seq<Seq<char>> {
    parts.map_values(|p: String| p@)
}

/// Joins `parts` with `sep` between neighbours.
pub fn join(parts: &Vec<String>, sep: &str) -> (r: String)
    ensures
        r@ == joined(views(parts@), sep@),
{
    let mut out = String::new();
    let mut i: usize = 0;
    while i < parts.len()
        invariant
            i <= parts.len(),
            out@ == joined(views(parts@).take(i as int), sep@),
        decreases parts.len() - i,
    {
        let ghost before = views(parts@).take(i as int);
        let ghost after = views(parts@).take(i + 1);
        proof {
            assert(after.drop_last() == before);
        }
        if i > 0 {
            out.append(sep);
        }
        out.append(parts[i].as_str());
        i += 1;
    }
    proof {
        assert(views(parts@).take(parts.len() as int) == views(parts@));
    }
    out
}

/// `s` without the characters equal to `unwanted`, the others in their order.
pub open spec fn without(s: Seq<char>, unwanted: char) -> Seq<char> {
    s.filter(other_than(unwanted))
}

/// The test for a character other than `unwanted`.
pub open spec fn other_than(unwanted: char) -> spec_fn(char) -> bool {
    |c: char| c != unwanted
}

/// Takes every `unwanted` out of `s`.
pub fn remove_all(s: &str, unwanted: char) -> (r: String)
    ensures
        r@ == without(s@, unwanted),
{
    let mut out = String::new();
    let ghost keep = other_than(unwanted);
    for c in it: s.chars()
        invariant
            it.seq() == s@,
            keep == other_than(unwanted),
            out@ == s@.take(it.index() as int).filter(keep),
    {
        proof {
            let before = s@.take(it.index() as int);
            assert(s@.take(it.index() + 1) == before.push(c));
            Seq::filter_distributes_over_add(before, seq![c], keep);
            assert(before.push(c) == before + seq![c]);
            reveal_with_fuel(Seq::filter, 2);
        }
        if c != unwanted {
            out.push(c);
        }
    }
    proof {
        assert(s@.take(s@.len() as int) == s@);
    }
    out
}

/// Whether `a` and `b` hold the same text.
pub fn same(a: &str, b: &str) -> (r: bool)
    ensures
        r == (a@ == b@),
{
    let x = a.as_bytes();
    let y = b.as_bytes();
    proof {
        encode_utf8_decode_utf8(a@);
        encode_utf8_decode_utf8(b@);
    }
    if x.len() != y.len() {
        return false;
    }
    let mut i: usize = 0;
    while i < x.len()
        invariant
            i <= x.len(),
            x.len() == y.len(),
            x@ == encode_utf8(a@),
            y@ == encode_utf8(b@),
            forall|j: int| 0 <= j < i ==> x@[j] == y@[j],
        decreases x.len() - i,
    {
        if x[i] != y[i] {
            return false;
        }
        i += 1;
    }
    assert(x@ =~= y@);
    true
}

/// The ten decimal digits.
pub open spec fn decimal_digits() -> Seq<char> {
    seq!['0', '1', '2', '3', '4', '5', '6', '7', '8', '9']
}

/// The digit that stands for `n`, which is less than ten.
pub open spec fn digit(n: nat) -> char {
    decimal_digits()[n as int]
}

/// `n` written in decimal digits.
pub open spec fn decimal_text(n: nat) -> Seq<char>
    decreases n,
{
    if n < 10 {
        seq![digit(n)]
    } else {
        decimal_text(n / 10).push(digit(n % 10))
    }
}

/// The digit that stands for `n`, which is less than ten.
fn digit_of(n: u32) -> (c: char)
    requires
        n < 10,
    ensures
        c == digit(n as nat),
{
    match n {
        0 => '0',
        1 => '1',
        2 => '2',
        3 => '3',
        4 => '4',
        5 => '5',
        6 => '6',
        7 => '7',
        8 => '8',
        _ => '9',
    }
}

/// Writes `n` in decimal digits, as its `Display` has it.
pub fn u32_text(n: u32) -> (r: String)
    ensures
        r@ == decimal_text(n as nat),
    decreases n,
{
    if n < 10 {
        let mut text = String::new();
        text.push(digit_of(n));
        text
    } else {
        let mut text = u32_text(n / 10);
        text.push(digit_of(n % 10));
        text
    }
}

/// Whether `digits` is one decimal digit of ASCII or more, and nothing else.
pub open spec fn is_decimal(digits: Seq<char>) -> bool {
    digits.len() > 0 && forall|i: int| 0 <= i < digits.len() ==> '0' <= #[trigger] digits[i] <= '9'
}

/// The number that the decimal digits `digits` stand for.
pub open spec fn decimal_value(digits: Seq<char>) -> nat
    decreases digits.len(),
{
    if digits.len() == 0 {
        0
    } else {
        decimal_value(digits.drop_last()) * 10 + (digits.last() as nat - '0' as nat) as nat
    }
}

/// The number that `text` is read as, the way `str::parse::<u32>` reads it:
/// decimal digits behind at most one plus sign, as far as the number fits 32
/// bits.
pub open spec fn parsed_u32(text: Seq<char>) -> Option<u32> {
    let digits = if text.len() > 0 && text[0] == '+' {
        text.skip(1)
    } else {
        text
    };
    if is_decimal(digits) && decimal_value(digits) <= u32::MAX {
        Some(decimal_value(digits) as u32)
    } else {
        None
    }
}

/// More digits never stand for less: the number of a text's first digits is
/// at most the number of the whole.
pub proof fn lemma_decimal_value_grows(digits: Seq<char>, n: int)
    requires
        0 <= n <= digits.len(),
    ensures
        decimal_value(digits.take(n)) <= decimal_value(digits),
    decreases digits.len(),
{
    if n == digits.len() {
        assert(digits.take(n) == digits);
    } else {
        lemma_decimal_value_grows(digits.drop_last(), n);
        assert(digits.drop_last().take(n) == digits.take(n));
    }
}

/// The value of the decimal digit `c`; nothing where it is none.
fn digit_value(c: char) -> (r: Option<u32>)
    ensures
        match r {
            Some(v) => '0' <= c <= '9' && v == c as nat - '0' as nat,
            None => !('0' <= c <= '9'),
        },
{
    match c {
        '0' => Some(0),
        '1' => Some(1),
        '2' => Some(2),
        '3' => Some(3),
        '4' => Some(4),
        '5' => Some(5),
        '6' => Some(6),
        '7' => Some(7),
        '8' => Some(8),
        '9' => Some(9),
        _ => None,
    }
}

/// Reads `text` as a number, the way `str::parse::<u32>` reads it.
pub fn parse_u32(text: &str) -> (r: Option<u32>)
    ensures
        r == parsed_u32(text@),
{
    let ghost all = text@;
    let ghost start: int = if all.len() > 0 && all[0] == '+' {
        1
    } else {
        0
    };
    let ghost digits = all.skip(start);
    let mut value: u32 = 0;
    let mut any = false;
    let mut first = true;
    for c in it: text.chars()
        invariant
            it.seq() == all,
            all == text@,
            digits == all.skip(start),
            start == (if all.len() > 0 && all[0] == '+' {
                1int
            } else {
                0int
            }),
            first == (it.index() == 0),
            !first ==> it.index() >= start,
            any == (it.index() > start),
            forall|j: int| start <= j < it.index() ==> '0' <= #[trigger] all[j] <= '9',
            !first ==> value == decimal_value(digits.take(it.index() - start)),
            first ==> value == 0,
    {
        let ghost k = it.index() as int;
        if first && c == '+' {
            first = false;
        } else {
            first = false;
            match digit_value(c) {
                None => {
                    proof {
                        assert(digits[k - start] == all[k]);
                    }
                    return None;
                },
                Some(d) => {
                    let next: u64 = value as u64 * 10 + d as u64;
                    proof {
                        let before = digits.take(k - start);
                        let after = digits.take(k - start + 1);
                        assert(after.drop_last() == before);
                        lemma_decimal_value_grows(digits, k - start + 1);
                        assert(all.skip(0) == all);
                    }
                    if next > 0xffff_ffff {
                        return None;
                    }
                    value = next as u32;
                    any = true;
                },
            }
        }
    }
    proof {
        assert(all.skip(0) == all);
        assert(digits.take(all.len() - start) == digits);
    }
    if any {
        Some(value)
    } else {
        None
    }
}

} // verus!
