//! Decimal text for small unsigned integers.

use vstd::prelude::*;

verus! {

/// The ASCII character of a decimal digit `d < 10`.
pub open spec fn digit_char(d: nat) -> char {
    (48 + d) as char
}

/// Whether `c` is one of the ASCII digits `0` to `9`.
pub open spec fn is_ascii_digit(c: char) -> bool {
    '0' <= c && c <= '9'
}

/// The decimal representation of `n`, most significant digit first,
/// without leading zeros.
pub open spec fn decimal(n: nat) -> Seq<char>
    decreases n,
{
    if n < 10 {
        seq![digit_char(n)]
    } else {
        decimal(n / 10).push(digit_char(n % 10))
    }
}

/// The number that a sequence of ASCII digits denotes in base ten.
pub open spec fn digits_value(s: Seq<char>) -> nat
    decreases s.len(),
{
    if s.len() == 0 {
        0
    } else {
        digits_value(s.drop_last()) * 10 + ((s.last() as int - 48) as nat)
    }
}

/// The text for one decimal digit.
fn digit_str(d: u16) -> (r: &'static str)
    requires
        d < 10,
    ensures
        r@ == seq![digit_char(d as nat)],
{
    proof {
        reveal_strlit("0");
        reveal_strlit("1");
        reveal_strlit("2");
        reveal_strlit("3");
        reveal_strlit("4");
        reveal_strlit("5");
        reveal_strlit("6");
        reveal_strlit("7");
        reveal_strlit("8");
        reveal_strlit("9");
    }
    match d {
        0 => "0",
        1 => "1",
        2 => "2",
        3 => "3",
        4 => "4",
        5 => "5",
        6 => "6",
        7 => "7",
        8 => "8",
        _ => "9",
    }
}

/// Writes `n` in decimal, as `u16`'s `Display` does.
pub fn decimal_string(n: u16) -> (r: String)
    ensures
        r@ == decimal(n as nat),
    decreases n,
{
    if n < 10 {
        String::from_str(digit_str(n))
    } else {
        let mut s = decimal_string(n / 10);
        s.append(digit_str(n % 10));
        s
    }
}


/// The digits that `u16::from_str` reads: the text without one optional
/// leading `+`.
pub open spec fn unsigned_digits(s: Seq<char>) -> Seq<char> {
    if s.len() > 0 && s[0] == '+' {
        s.drop_first()
    } else {
        s
    }
}

/// What `str::parse::<u16>` gives back: an optional `+`, then one or more
/// ASCII digits whose value fits in 16 bits; anything else is refused.
pub open spec fn u16_from_str(s: Seq<char>) -> Option<u16> {
    let b = unsigned_digits(s);
    if b.len() > 0 && (forall|i: int| 0 <= i < b.len() ==> is_ascii_digit(#[trigger] b[i]))
        && digits_value(b) <= 65535 {
        Some(digits_value(b) as u16)
    } else {
        None
    }
}

/// Appending digits never makes the value of a digit sequence smaller.
pub proof fn lemma_digits_value_prefix(s: Seq<char>, k: int)
    requires
        0 <= k <= s.len(),
        forall|i: int| 0 <= i < s.len() ==> is_ascii_digit(#[trigger] s[i]),
    ensures
        digits_value(s.take(k)) <= digits_value(s),
    decreases s.len(),
{
    if k < s.len() {
        let t = s.drop_last();
        assert(t.take(k) =~= s.take(k));
        assert forall|i: int| 0 <= i < t.len() implies is_ascii_digit(#[trigger] t[i]) by {
            assert(t[i] == s[i]);
        }
        lemma_digits_value_prefix(t, k);
    } else {
        assert(s.take(k) =~= s);
    }
}

/// The decimal text of a number is made of digits and denotes the number.
pub proof fn lemma_decimal_digits(n: nat)
    ensures
        decimal(n).len() > 0,
        forall|i: int| 0 <= i < decimal(n).len() ==> is_ascii_digit(#[trigger] decimal(n)[i]),
        digits_value(decimal(n)) == n,
    decreases n,
{
    if n < 10 {
        assert(decimal(n).drop_last() =~= Seq::<char>::empty());
        assert(digit_char(n) as int == 48 + n);
        assert(digits_value(Seq::<char>::empty()) == 0);
        assert(decimal(n).last() == digit_char(n));
    } else {
        assert(digit_char(n % 10) as int == 48 + n % 10);
        lemma_decimal_digits(n / 10);
        let d = decimal(n);
        assert(d.drop_last() =~= decimal(n / 10));
        assert(d.last() == digit_char(n % 10));
        assert(digits_value(d) == digits_value(decimal(n / 10)) * 10 + n % 10);
        assert forall|i: int| 0 <= i < d.len() implies is_ascii_digit(#[trigger] d[i]) by {
            if i < d.len() - 1 {
                assert(d[i] == decimal(n / 10)[i]);
            }
        }
    }
}

/// Law: a `u16` written in decimal reads back as itself, so the port that
/// a connection string shows is the port that the port setting parses to.
pub proof fn lemma_u16_decimal_round_trip(n: u16)
    ensures
        u16_from_str(decimal(n as nat)) == Some(n),
{
    lemma_decimal_digits(n as nat);
    let d = decimal(n as nat);
    assert(is_ascii_digit(d[0]));
    assert(unsigned_digits(d) == d);
}

/// A leading zero adds nothing to the value of a digit sequence.
proof fn lemma_digits_value_leading_zero(d: Seq<char>)
    ensures
        digits_value(seq!['0'] + d) == digits_value(d),
    decreases d.len(),
{
    let z = seq!['0'] + d;
    if d.len() == 0 {
        assert(z.drop_last() =~= Seq::<char>::empty());
        assert(digits_value(Seq::<char>::empty()) == 0);
        assert('0' as int == 48);
    } else {
        lemma_digits_value_leading_zero(d.drop_last());
        assert(z.drop_last() =~= seq!['0'] + d.drop_last());
        assert(z.last() == d.last());
    }
}

/// Law: one leading `+` does not change what a number text reads as.
pub proof fn lemma_plus_sign_changes_nothing(d: Seq<char>)
    requires
        d.len() > 0,
        d[0] != '+',
    ensures
        u16_from_str(seq!['+'] + d) == u16_from_str(d),
{
    assert((seq!['+'] + d).drop_first() =~= d);
}

/// Law: leading zeros do not change what a number text reads as.
pub proof fn lemma_leading_zero_changes_nothing(d: Seq<char>)
    requires
        d.len() > 0,
        d[0] != '+',
    ensures
        u16_from_str(seq!['0'] + d) == u16_from_str(d),
{
    let z = seq!['0'] + d;
    lemma_digits_value_leading_zero(d);
    assert(unsigned_digits(z) == z);
    assert(unsigned_digits(d) == d);
    assert((forall|i: int| 0 <= i < z.len() ==> is_ascii_digit(#[trigger] z[i])) <==> (forall|
        i: int,
    | 0 <= i < d.len() ==> is_ascii_digit(#[trigger] d[i]))) by {
        if forall|i: int| 0 <= i < d.len() ==> is_ascii_digit(#[trigger] d[i]) {
            assert forall|i: int| 0 <= i < z.len() implies is_ascii_digit(#[trigger] z[i]) by {
                if i > 0 {
                    assert(z[i] == d[i - 1]);
                }
            }
        }
        if forall|i: int| 0 <= i < z.len() ==> is_ascii_digit(#[trigger] z[i]) {
            assert forall|i: int| 0 <= i < d.len() implies is_ascii_digit(#[trigger] d[i]) by {
                assert(z[i + 1] == d[i]);
            }
        }
    }
}

/// Reads a decimal `u16` as `str::parse::<u16>` does.
pub fn parse_u16(s: &str) -> (r: Option<u16>)
    ensures
        r == u16_from_str(s@),
{
    let len = s.unicode_len();
    let mut start: usize = 0;
    if len > 0 && s.get_char(0) == '+' {
        start = 1;
    }
    let ghost b = unsigned_digits(s@);
    assert(b =~= s@.subrange(start as int, len as int));
    if start == len {
        return None;
    }
    let mut i: usize = start;
    let mut acc: u32 = 0;
    assert(b.take(0) =~= Seq::<char>::empty());
    while i < len
        invariant
            start <= i <= len,
            len == s@.len(),
            b == s@.subrange(start as int, len as int),
            b == unsigned_digits(s@),
            b.len() > 0,
            acc == digits_value(b.take(i - start)),
            acc <= 65535,
            forall|j: int| 0 <= j < i - start ==> is_ascii_digit(#[trigger] b[j]),
        decreases len - i,
    {
        let c = s.get_char(i);
        assert(c == b[i - start]);
        if !('0' <= c && c <= '9') {
            assert(!is_ascii_digit(b[i - start]));
            return None;
        }
        let d: u32 = (c as u32) - 48;
        let ghost p = b.take(i - start + 1);
        assert(p.drop_last() =~= b.take(i - start));
        assert(p.last() == c);
        acc = acc * 10 + d;
        i = i + 1;
        assert(acc == digits_value(b.take(i - start)));
        if acc > 65535 {
            proof {
                if forall|j: int| 0 <= j < b.len() ==> is_ascii_digit(#[trigger] b[j]) {
                    lemma_digits_value_prefix(b, i - start);
                }
            }
            return None;
        }
    }
    assert(b.take(len - start) =~= b);
    Some(acc as u16)
}

} // verus!
