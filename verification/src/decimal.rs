use vstd::prelude::*;

verus! {

/// `c` is one of the ASCII digits `0` to `9`.
pub open spec fn is_digit(c: char) -> bool {
    '0' <= c && c <= '9'
}

/// The number that the digit `c` stands for.
pub open spec fn digit_value(c: char) -> int {
    (c as u32) as int - ('0' as u32) as int
}

/// Every character of `s` is a digit.
pub open spec fn all_digits(s: Seq<char>) -> bool {
    forall|i: int| 0 <= i < s.len() ==> is_digit(#[trigger] s[i])
}

/// The number that the digits `s` spell in base ten, most significant first.
pub open spec fn digits_value(s: Seq<char>) -> int
    decreases s.len(),
{
    if s.len() == 0 {
        0
    } else {
        10 * digits_value(s.drop_last()) + digit_value(s.last())
    }
}

/// `s` starts with a minus sign.
pub open spec fn is_negative(s: Seq<char>) -> bool {
    s.len() > 0 && s[0] == '-'
}

/// `s` without its leading sign, if it has one.
pub open spec fn unsigned_part(s: Seq<char>) -> Seq<char> {
    if s.len() > 0 && (s[0] == '-' || s[0] == '+') {
        s.drop_first()
    } else {
        s
    }
}

/// The signed number that `s` spells.
pub open spec fn signed_value(s: Seq<char>) -> int {
    if is_negative(s) {
        -digits_value(unsigned_part(s))
    } else {
        digits_value(unsigned_part(s))
    }
}

/// The `i32` that `s` spells in base ten: an optional `+` or `-` sign
/// followed by at least one digit and nothing else, with a value in the
/// range of `i32`.
pub open spec fn decimal_i32(s: Seq<char>) -> Option<i32> {
    let d = unsigned_part(s);
    if d.len() > 0 && all_digits(d) && i32::MIN <= signed_value(s) <= i32::MAX {
        Some(signed_value(s) as i32)
    } else {
        None
    }
}

/// Digits spell a number that is not negative.
pub proof fn lemma_digits_value_nonneg(s: Seq<char>)
    requires
        all_digits(s),
    ensures
        0 <= digits_value(s),
    decreases s.len(),
{
    if s.len() > 0 {
        assert(is_digit(s[s.len() - 1]));
        lemma_digits_value_nonneg(s.drop_last());
    }
}

/// Appending digits never makes the number smaller.
pub proof fn lemma_digits_value_prefix(s: Seq<char>, k: int)
    requires
        all_digits(s),
        0 <= k <= s.len(),
    ensures
        0 <= digits_value(s.take(k)) <= digits_value(s),
    decreases s.len(),
{
    if k == s.len() {
        assert(s.take(k) =~= s);
        lemma_digits_value_nonneg(s);
    } else {
        let t = s.drop_last();
        assert(is_digit(s[s.len() - 1]));
        lemma_digits_value_prefix(t, k);
        assert(t.take(k) =~= s.take(k));
        lemma_digits_value_nonneg(t);
    }
}

/// Parses `s` as a base-ten `i32`, accepting exactly what
/// [`decimal_i32`] accepts.
pub fn parse_i32(s: &str) -> (r: Option<i32>)
    ensures
        r == decimal_i32(s@),
{
    let n = s.unicode_len();
    let mut start: usize = 0;
    let mut negative = false;
    if n > 0 {
        let c = s.get_char(0);
        if c == '-' {
            negative = true;
            start = 1;
        } else if c == '+' {
            start = 1;
        }
    }
    let ghost d = unsigned_part(s@);
    assert(d =~= s@.subrange(start as int, n as int));
    assert(negative == is_negative(s@));
    if start == n {
        return None;
    }
    let mut acc: i64 = 0;
    let mut i: usize = start;
    assert(d.take(0) =~= Seq::<char>::empty());
    while i < n
        invariant
            start <= i <= n,
            n == s@.len(),
            d == s@.subrange(start as int, n as int),
            d == unsigned_part(s@),
            0 <= acc <= 2147483648,
            acc == digits_value(d.take(i - start)),
            all_digits(d.take(i - start)),
        decreases n - i,
    {
        let c = s.get_char(i);
        let k: usize = i - start;
        assert(d[k as int] == c);
        if c < '0' || c > '9' {
            assert(!is_digit(d[k as int]));
            return None;
        }
        let v = (c as u32 - '0' as u32) as i64;
        assert(d.take(k + 1).drop_last() =~= d.take(k as int));
        assert(d.take(k + 1).last() == c);
        acc = acc * 10 + v;
        assert(all_digits(d.take(k + 1)));
        if acc > 2147483648 {
            proof {
                if all_digits(d) {
                    lemma_digits_value_prefix(d, k + 1);
                }
            }
            return None;
        }
        i += 1;
    }
    assert(d.take(n - start) =~= d);
    if negative {
        Some((0 - acc) as i32)
    } else if acc <= 2147483647 {
        Some(acc as i32)
    } else {
        None
    }
}

/// The digit that stands for `d`, for `d` from 0 to 9.
pub open spec fn digit_char(d: int) -> char {
    if d == 0 {
        '0'
    } else if d == 1 {
        '1'
    } else if d == 2 {
        '2'
    } else if d == 3 {
        '3'
    } else if d == 4 {
        '4'
    } else if d == 5 {
        '5'
    } else if d == 6 {
        '6'
    } else if d == 7 {
        '7'
    } else if d == 8 {
        '8'
    } else {
        '9'
    }
}

/// The base-ten digits of `m`, most significant first, without leading zeros.
pub open spec fn digits_of(m: nat) -> Seq<char>
    decreases m,
{
    if m < 10 {
        seq![digit_char(m as int)]
    } else {
        digits_of(m / 10).push(digit_char((m % 10) as int))
    }
}

/// The base-ten text of `n`: its digits, behind a minus sign when it is
/// negative.
pub open spec fn decimal_text(n: int) -> Seq<char> {
    if n < 0 {
        seq!['-'] + digits_of((-n) as nat)
    } else {
        digits_of(n as nat)
    }
}

proof fn lemma_digit_char(d: int)
    requires
        0 <= d < 10,
    ensures
        is_digit(digit_char(d)),
        digit_value(digit_char(d)) == d,
{
}

/// The digits of `m` are digits, at least one, and spell `m`.
pub proof fn lemma_digits_of(m: nat)
    ensures
        digits_of(m).len() > 0,
        all_digits(digits_of(m)),
        digits_value(digits_of(m)) == m,
    decreases m,
{
    if m < 10 {
        lemma_digit_char(m as int);
        let s = digits_of(m);
        assert(s.drop_last() =~= Seq::<char>::empty());
        assert(digits_value(s) == 10 * digits_value(s.drop_last()) + digit_value(s.last()));
    } else {
        let q = (m / 10) as nat;
        let r = m % 10;
        lemma_digits_of(q);
        lemma_digit_char(r as int);
        vstd::arithmetic::div_mod::lemma_fundamental_div_mod(m as int, 10);
        let s = digits_of(m);
        assert(s.drop_last() =~= digits_of(q));
        assert(s.last() == digit_char(r as int));
        assert(digits_value(s) == 10 * digits_value(s.drop_last()) + digit_value(s.last()));
        assert(digits_value(s) == 10 * q + r);
        assert forall|i: int| 0 <= i < s.len() implies is_digit(#[trigger] s[i]) by {
            if i < s.len() - 1 {
                assert(s[i] == digits_of(q)[i]);
            }
        }
    }
}

proof fn lemma_leading_zero_value(d: Seq<char>)
    ensures
        digits_value(seq!['0'] + d) == digits_value(d),
    decreases d.len(),
{
    let z = seq!['0'] + d;
    if d.len() == 0 {
        assert(z.drop_last() =~= Seq::<char>::empty());
        assert(digits_value(z) == 10 * digits_value(z.drop_last()) + digit_value(z.last()));
    } else {
        assert(z.drop_last() =~= seq!['0'] + d.drop_last());
        assert(z.last() == d.last());
        lemma_leading_zero_value(d.drop_last());
        assert(digits_value(z) == 10 * digits_value(z.drop_last()) + digit_value(z.last()));
        assert(digits_value(d) == 10 * digits_value(d.drop_last()) + digit_value(d.last()));
    }
}

/// A leading zero in front of the digits of a number does not change what
/// they parse to.
pub proof fn lemma_leading_zero_parses_alike(d: Seq<char>)
    requires
        d.len() > 0,
        all_digits(d),
    ensures
        decimal_i32(seq!['0'] + d) == decimal_i32(d),
{
    let z = seq!['0'] + d;
    lemma_leading_zero_value(d);
    assert(is_digit(d[0]));
    assert(unsigned_part(d) == d);
    assert(unsigned_part(z) == z);
    assert forall|i: int| 0 <= i < z.len() implies is_digit(#[trigger] z[i]) by {
        if i > 0 {
            assert(z[i] == d[i - 1]);
        }
    }
}

/// Parsing the base-ten text of an `i32` gives that `i32` back.
pub proof fn lemma_decimal_text_roundtrip(n: i32)
    ensures
        decimal_i32(decimal_text(n as int)) == Some(n),
{
    let t = decimal_text(n as int);
    if n < 0 {
        let m = (-n) as nat;
        lemma_digits_of(m);
        assert(t.drop_first() =~= digits_of(m));
        assert(unsigned_part(t) == digits_of(m));
    } else {
        lemma_digits_of(n as nat);
        assert(is_digit(t[0]));
        assert(unsigned_part(t) == t);
    }
}

} // verus!
