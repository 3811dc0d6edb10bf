//! Unsigned integers written in decimal, and read back.

use vstd::prelude::*;

verus! {

/// The character that writes the digit `d`.
pub open spec fn digit_char(d: int) -> char {
    ((48 + d) as u8) as char
}

/// `c` is one of `0` to `9`.
pub open spec fn is_digit(c: char) -> bool {
    '0' <= c <= '9'
}

/// Every character of `s` is a digit.
pub open spec fn all_digits(s: Seq<char>) -> bool {
    forall|i: int| 0 <= i < s.len() ==> is_digit(#[trigger] s[i])
}

/// The decimal numeral of `n`, without leading zeros.
pub open spec fn decimal(n: nat) -> Seq<char>
    decreases n,
{
    if n < 10 {
        seq![digit_char(n as int)]
    } else {
        decimal(n / 10).push(digit_char((n % 10) as int))
    }
}

/// The number a run of digits writes; leading zeros count for nothing.
pub open spec fn decimal_value(s: Seq<char>) -> nat
    decreases s.len(),
{
    if s.len() == 0 {
        0
    } else {
        (decimal_value(s.drop_last()) * 10 + (s.last() as int - 48)) as nat
    }
}

/// The number a text writes, where it is a non-empty run of digits.
pub open spec fn parse(s: Seq<char>) -> Option<nat> {
    if s.len() > 0 && all_digits(s) {
        Some(decimal_value(s))
    } else {
        None
    }
}

/// A numeral is a non-empty run of digits.
pub proof fn lemma_decimal_digits(n: nat)
    ensures
        decimal(n).len() > 0,
        all_digits(decimal(n)),
    decreases n,
{
    if n >= 10 {
        lemma_decimal_digits(n / 10);
    }
}

/// Reading the numeral of a number gives the number.
pub proof fn lemma_parse_decimal(n: nat)
    ensures
        parse(decimal(n)) == Some(n),
    decreases n,
{
    lemma_decimal_digits(n);
    if n < 10 {
        assert(decimal(n).drop_last() =~= Seq::<char>::empty());
        assert(decimal_value(decimal(n).drop_last()) == 0);
    } else {
        lemma_parse_decimal(n / 10);
        assert(decimal(n).drop_last() =~= decimal(n / 10));
    }
}

/// A run of digits writes no less than any of its prefixes.
pub proof fn lemma_value_of_prefix(s: Seq<char>, k: int)
    requires
        all_digits(s),
        0 <= k <= s.len(),
    ensures
        decimal_value(s.take(k)) <= decimal_value(s),
    decreases s.len() - k,
{
    if k == s.len() {
        assert(s.take(k) =~= s);
    } else {
        lemma_value_of_prefix(s, k + 1);
        let t = s.take(k + 1);
        assert(t.drop_last() =~= s.take(k));
        assert(is_digit(s[k]));
        assert(t.last() == s[k]);
    }
}

/// Appends the numeral of `n` to `dst`.
pub fn push_decimal(dst: &mut Vec<char>, n: u64)
    ensures
        final(dst)@ == old(dst)@ + decimal(n as nat),
    decreases n,
{
    if n >= 10 {
        push_decimal(dst, n / 10);
    }
    let d: u8 = (n % 10) as u8;
    dst.push((48u8 + d) as char);
    assert(dst@ =~= old(dst)@ + decimal(n as nat));
}

/// Reads a number that fits in 64 bits.
pub fn parse_decimal(v: &[char]) -> (r: Option<u64>)
    ensures
        r == match parse(v@) {
            Some(n) if n <= u64::MAX => Some(n as u64),
            _ => None,
        },
{
    if v.len() == 0 {
        return None;
    }
    let mut acc: u64 = 0;
    let mut i: usize = 0;
    while i < v.len()
        invariant
            i <= v.len(),
            all_digits(v@.take(i as int)),
            acc == decimal_value(v@.take(i as int)),
        decreases v.len() - i,
    {
        let c = v[i];
        if !('0' <= c && c <= '9') {
            return None;
        }
        let d: u64 = (c as u32 - 48) as u64;
        proof {
            let t = v@.take(i + 1);
            assert(t.drop_last() =~= v@.take(i as int));
            assert(t.last() == c);
            assert forall|j: int| 0 <= j < t.len() implies is_digit(#[trigger] t[j]) by {
                if j < i {
                    assert(t[j] == v@.take(i as int)[j]);
                }
            }
            if all_digits(v@) {
                lemma_value_of_prefix(v@, i + 1);
            }
        }
        if acc > (u64::MAX - d) / 10 {
            return None;
        }
        acc = acc * 10 + d;
        i = i + 1;
    }
    assert(v@.take(v.len() as int) =~= v@);
    Some(acc)
}

} // verus!
