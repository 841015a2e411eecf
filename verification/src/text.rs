//! Decimal numbers in text, and the characters of a string.

use vstd::prelude::*;

verus! {

pub open spec fn is_digit(c: char) -> bool {
    '0' <= c <= '9'
}

pub open spec fn digit_value(c: char) -> nat {
    (c as int - '0' as int) as nat
}

/// `s` is one or more decimal digits.
pub open spec fn all_digits(s: Seq<char>) -> bool {
    s.len() > 0 && forall|i: int| 0 <= i < s.len() ==> is_digit(#[trigger] s[i])
}

/// The number that the decimal digits `s` stand for, most significant first.
pub open spec fn digits_value(s: Seq<char>) -> nat
    decreases s.len(),
{
    if s.len() == 0 {
        0
    } else {
        digits_value(s.drop_last()) * 10 + digit_value(s.last())
    }
}

/// `s` without the one plus sign that may stand in front of a number.
pub open spec fn without_plus(s: Seq<char>) -> Seq<char> {
    if s.len() > 0 && s[0] == '+' {
        s.skip(1)
    } else {
        s
    }
}

/// The number that `s` writes down, if it writes one down that fits in 64 bits.
pub open spec fn number(s: Seq<char>) -> Option<u64> {
    let digits = without_plus(s);
    if all_digits(digits) && digits_value(digits) <= u64::MAX {
        Some(digits_value(digits) as u64)
    } else {
        None
    }
}

/// The decimal digits of `n`, without leading zeros.
pub open spec fn decimal(n: nat) -> Seq<char>
    decreases n,
{
    let last = ('0' as int + n % 10) as char;
    if n < 10 {
        seq![last]
    } else {
        decimal(n / 10).push(last)
    }
}

/// The characters of `s`.
pub fn chars_of(s: &str) -> (chars: Vec<char>)
    ensures
        chars@ == s@,
{
    let mut chars: Vec<char> = Vec::new();
    for c in it: s.chars()
        invariant
            chars@ == it.seq().take(it.index()),
            it.seq() == s@,
    {
        chars.push(c);
    }
    chars
}

/// What is read first counts for no more than the whole.
proof fn lemma_digits_value_take(s: Seq<char>, k: int)
    requires
        0 <= k <= s.len(),
    ensures
        digits_value(s.take(k)) <= digits_value(s),
    decreases s.len() - k,
{
    if k < s.len() {
        lemma_digits_value_take(s, k + 1);
        assert(s.take(k + 1).drop_last() == s.take(k));
    } else {
        assert(s.take(k) == s);
    }
}

/// Reads a decimal number.
pub fn parse_number(s: &Vec<char>) -> (parsed: Option<u64>)
    ensures
        parsed == number(s@),
{
    let start: usize = if s.len() > 0 && s[0] == '+' {
        1
    } else {
        0
    };
    let ghost digits = without_plus(s@);
    assert(digits == s@.skip(start as int));
    if s.len() == start {
        return None;
    }
    let mut value: u64 = 0;
    let mut i: usize = start;
    while i < s.len()
        invariant
            start <= i <= s.len(),
            digits == without_plus(s@),
            digits == s@.skip(start as int),
            forall|j: int| 0 <= j < i - start ==> is_digit(#[trigger] digits[j]),
            value == digits_value(digits.take(i - start)),
        decreases s.len() - i,
    {
        let c: char = s[i];
        assert(c == digits[i - start]);
        if !('0' <= c && c <= '9') {
            return None;
        }
        let digit: u64 = (c as u32 - '0' as u32) as u64;
        proof {
            assert(digits.take(i - start + 1).drop_last() == digits.take(i - start));
            lemma_digits_value_take(digits, i - start + 1);
        }
        if value > u64::MAX / 10 || value * 10 > u64::MAX - digit {
            return None;
        }
        value = value * 10 + digit;
        i = i + 1;
    }
    assert(digits.take(i - start) == digits);
    Some(value)
}

/// Every number that fits in 64 bits is read back from its decimal digits.
pub proof fn law_decimal_is_read_back(n: u64)
    ensures
        number(decimal(n as nat)) == Some(n),
{
    lemma_decimal(n as nat);
    let s = decimal(n as nat);
    assert(is_digit(s[0]));
    assert(without_plus(s) == s);
}

/// The digits of `n` are digits, and they stand for `n`.
proof fn lemma_decimal(n: nat)
    ensures
        all_digits(decimal(n)),
        digits_value(decimal(n)) == n,
    decreases n,
{
    let last = ('0' as int + n % 10) as char;
    assert(is_digit(last) && digit_value(last) == n % 10);
    if n < 10 {
        assert(decimal(n).drop_last() == Seq::<char>::empty());
        assert(digits_value(Seq::<char>::empty()) == 0);
    } else {
        lemma_decimal(n / 10);
        assert(decimal(n).drop_last() == decimal(n / 10));
    }
}

/// The digits of a number hold no slash, and there is one at least.
pub(crate) proof fn lemma_decimal_has_no_slash(n: u64)
    ensures
        decimal(n as nat).len() > 0,
        forall|i: int| 0 <= i < decimal(n as nat).len() ==> #[trigger] decimal(n as nat)[i] != '/',
{
    lemma_decimal(n as nat);
    assert forall|i: int| 0 <= i < decimal(n as nat).len() implies #[trigger] decimal(n as nat)[i]
        != '/' by {
        assert(is_digit(decimal(n as nat)[i]));
    }
}

/// Ways to write down `n`: the decimal digits, with any number of zeros in front of them, and with
/// a plus sign in front of all or without.
pub open spec fn spelled(plus: bool, zeros: nat, n: nat) -> Seq<char> {
    (if plus {
        seq!['+']
    } else {
        seq![]
    }) + Seq::new(zeros, |i: int| '0') + decimal(n)
}

/// Digits are zeros and then the digits of what they stand for.
proof fn lemma_digits_are_spelled(s: Seq<char>) -> (zeros: nat)
    requires
        all_digits(s),
    ensures
        s == Seq::new(zeros, |i: int| '0') + decimal(digits_value(s)),
    decreases s.len(),
{
    let c = s.last();
    let before = s.drop_last();
    let n = digits_value(before);
    assert(is_digit(c));
    assert(c == ('0' as int + digit_value(c)) as char);
    if before.len() == 0 {
        assert(digits_value(before) == 0);
        assert(s == seq![c]);
        assert(s == Seq::new(0, |i: int| '0') + decimal(digits_value(s)));
        0
    } else {
        assert forall|i: int| 0 <= i < before.len() implies is_digit(#[trigger] before[i]) by {
            assert(before[i] == s[i]);
        }
        let zeros = lemma_digits_are_spelled(before);
        assert(s == before.push(c));
        if n == 0 {
            assert(decimal(n) == seq!['0']);
            assert(s == Seq::new(zeros + 1, |i: int| '0') + decimal(digits_value(s)));
            zeros + 1
        } else {
            let m = digits_value(s);
            assert(m / 10 == n && m % 10 == digit_value(c) && m >= 10);
            assert(decimal(m) == decimal(n).push(c));
            assert(s == Seq::new(zeros, |i: int| '0') + decimal(m));
            zeros
        }
    }
}

/// Zeros in front do not count.
proof fn lemma_zeros_do_not_count(zeros: nat, s: Seq<char>)
    requires
        all_digits(s),
    ensures
        all_digits(Seq::new(zeros, |i: int| '0') + s),
        digits_value(Seq::new(zeros, |i: int| '0') + s) == digits_value(s),
    decreases s.len(),
{
    let padded = Seq::new(zeros, |i: int| '0') + s;
    assert forall|i: int| 0 <= i < padded.len() implies is_digit(#[trigger] padded[i]) by {
        if i >= zeros {
            assert(padded[i] == s[i - zeros]);
        }
    }
    assert(padded.last() == s.last());
    if s.len() == 1 {
        assert(padded.drop_last() == Seq::new(zeros, |i: int| '0'));
        lemma_zeros_are_nothing(zeros);
        assert(digits_value(s.drop_last()) == 0);
    } else {
        let before = s.drop_last();
        assert forall|i: int| 0 <= i < before.len() implies is_digit(#[trigger] before[i]) by {
            assert(before[i] == s[i]);
        }
        lemma_zeros_do_not_count(zeros, before);
        assert(padded.drop_last() == Seq::new(zeros, |i: int| '0') + before);
    }
}

proof fn lemma_zeros_are_nothing(zeros: nat)
    ensures
        digits_value(Seq::new(zeros, |i: int| '0')) == 0,
    decreases zeros,
{
    if zeros > 0 {
        lemma_zeros_are_nothing((zeros - 1) as nat);
        assert(Seq::new(zeros, |i: int| '0').drop_last() == Seq::new(
            (zeros - 1) as nat,
            |i: int| '0',
        ));
    }
}

/// A text is a number if and only if it is one of the ways to write that number down, and so it
/// is one number at most. There are all numbers of 64 bits, and no others.
pub proof fn law_numbers_are_spelled(s: Seq<char>, n: u64)
    ensures
        number(s) == Some(n) <==> exists|plus: bool, zeros: nat|
            s == #[trigger] spelled(plus, zeros, n as nat),
{
    let digits = without_plus(s);
    if number(s) == Some(n) {
        let zeros = lemma_digits_are_spelled(digits);
        let plus = s.len() > 0 && s[0] == '+';
        let padded = Seq::new(zeros, |i: int| '0') + decimal(n as nat);
        assert(digits == padded);
        if plus {
            assert(s == seq!['+'] + digits);
            assert(seq!['+'] + padded == spelled(true, zeros, n as nat));
        } else {
            assert(padded == spelled(false, zeros, n as nat));
        }
        assert(s == spelled(plus, zeros, n as nat));
    }
    if exists|plus: bool, zeros: nat| s == #[trigger] spelled(plus, zeros, n as nat) {
        let (plus, zeros) = choose|plus: bool, zeros: nat|
            s == #[trigger] spelled(plus, zeros, n as nat);
        lemma_decimal(n as nat);
        lemma_zeros_do_not_count(zeros, decimal(n as nat));
        let padded = Seq::new(zeros, |i: int| '0') + decimal(n as nat);
        assert(is_digit(padded[0]));
        if plus {
            assert(s.skip(1) == padded);
        } else {
            assert(s == padded);
        }
        assert(without_plus(s) == padded);
    }
}

/// A text is read as the number that it is.
pub proof fn law_numbers_are_read_as_written(s: Vec<char>, read: Option<u64>, n: u64)
    requires
        call_ensures(parse_number, (&s,), read),
    ensures
        read == Some(n) <==> exists|plus: bool, zeros: nat|
            s@ == #[trigger] spelled(plus, zeros, n as nat),
{
    law_numbers_are_spelled(s@, n);
}

/// The characters of a string are all of them, in their order.
pub proof fn law_characters_are_kept(s: &str, chars: Vec<char>)
    requires
        call_ensures(chars_of, (s,), chars),
    ensures
        chars@ == s@,
{
}

} // verus!
