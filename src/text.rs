//! Decimal rendering of integers and appending characters to a `String`.
use vstd::prelude::*;

verus! {

/// The ASCII digit for a value below ten.
pub open spec fn digit_char(d: nat) -> char {
    if d == 0 {
        '0'
    } else if d == 1 {
        '1'
    } else if d == 2 {
        '2'
    } else if d == 3 {
        '3'
    } else if d == 4 {
        '4'
    } else if d == 5 {
        '5'
    } else if d == 6 {
        '6'
    } else if d == 7 {
        '7'
    } else if d == 8 {
        '8'
    } else {
        '9'
    }
}

/// The ASCII digit for `d`.
fn digit(d: u64) -> (r: char)
    requires
        d < 10,
    ensures
        r == digit_char(d as nat),
{
    match d {
        0 => '0',
        1 => '1',
        2 => '2',
        3 => '3',
        4 => '4',
        5 => '5',
        6 => '6',
        7 => '7',
        8 => '8',
        _ => '9',
    }
}

/// The decimal digits of a natural number, most significant first, with no
/// leading zeros (zero itself is the single digit `0`).
pub open spec fn nat_digits(n: nat) -> Seq<char>
    decreases n,
{
    if n < 10 {
        seq![digit_char(n)]
    } else {
        nat_digits(n / 10).push(digit_char(n % 10))
    }
}

/// The canonical decimal form of an integer: its digits, after a `-` when the
/// integer is negative.
pub open spec fn decimal(v: int) -> Seq<char> {
    if v < 0 {
        seq!['-'] + nat_digits((-v) as nat)
    } else {
        nat_digits(v as nat)
    }
}

/// The number of occurrences of `c` in `s`.
pub open spec fn count_char(s: Seq<char>, c: char) -> nat
    decreases s.len(),
{
    if s.len() == 0 {
        0
    } else {
        count_char(s.drop_last(), c) + if s.last() == c {
            1nat
        } else {
            0nat
        }
    }
}

/// Occurrences in a concatenation add up.
pub proof fn lemma_count_concat(a: Seq<char>, b: Seq<char>, c: char)
    ensures
        count_char(a + b, c) == count_char(a, c) + count_char(b, c),
    decreases b.len(),
{
    if b.len() == 0 {
        assert(a + b =~= a);
    } else {
        assert((a + b).drop_last() =~= a + b.drop_last());
        lemma_count_concat(a, b.drop_last(), c);
    }
}

/// A character that is no digit does not occur among the digits of a number.
proof fn lemma_nat_digits_count(n: nat, c: char)
    requires
        (c as u32) < 48 || (c as u32) > 57,
    ensures
        count_char(nat_digits(n), c) == 0,
    decreases n,
{
    if n < 10 {
        assert(digit_char(n) != c);
        assert(seq![digit_char(n)].drop_last() =~= Seq::<char>::empty());
        assert(count_char(Seq::<char>::empty(), c) == 0);
    } else {
        lemma_nat_digits_count(n / 10, c);
        assert(nat_digits(n).drop_last() =~= nat_digits(n / 10));
    }
}

/// Neither a digit nor `-`, `c` does not occur in the decimal form of an
/// integer.
pub proof fn lemma_decimal_count(v: int, c: char)
    requires
        (c as u32) < 48 || (c as u32) > 57,
        c != '-',
    ensures
        count_char(decimal(v), c) == 0,
{
    if v < 0 {
        lemma_nat_digits_count((-v) as nat, c);
        lemma_count_concat(seq!['-'], nat_digits((-v) as nat), c);
        assert(seq!['-'].drop_last() =~= Seq::<char>::empty());
        assert(count_char(Seq::<char>::empty(), c) == 0);
    } else {
        lemma_nat_digits_count(v as nat, c);
    }
}

/// Relies on `String::push`: the character is appended at the end.
#[verifier::external_body]
pub(crate) fn push_char(dest: &mut String, c: char)
    ensures
        final(dest)@ == old(dest)@.push(c),
{
    dest.push(c)
}

pub(crate) fn push_nat_digits(dest: &mut String, n: u64)
    ensures
        final(dest)@ == old(dest)@ + nat_digits(n as nat),
    decreases n,
{
    if n >= 10 {
        push_nat_digits(dest, n / 10);
    }
    push_char(dest, digit(n % 10));
    proof {
        assert(old(dest)@ + nat_digits(n as nat) =~= (old(dest)@ + (if n >= 10 { nat_digits((n / 10) as nat) } else { Seq::empty() })).push(digit_char((n % 10) as nat)));
    }
}

/// Appends the canonical decimal form of `v`.
pub fn push_decimal(dest: &mut String, v: i64)
    ensures
        final(dest)@ == old(dest)@ + decimal(v as int),
{
    if v < 0 {
        push_char(dest, '-');
        let magnitude: u64 = if v == i64::MIN {
            9223372036854775808u64
        } else {
            (-v) as u64
        };
        push_nat_digits(dest, magnitude);
        assert(dest@ =~= old(dest)@ + decimal(v as int));
    } else {
        push_nat_digits(dest, v as u64);
    }
}

} // verus!
