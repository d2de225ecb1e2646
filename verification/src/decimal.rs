//! Unsigned numbers in decimal notation: reading them and writing them.

use vstd::prelude::*;

verus! {

/// Whether `c` is one of the ten ASCII digits.
pub open spec fn is_digit(c: char) -> bool {
    '0' <= c && c <= '9'
}

/// The value of an ASCII digit; zero for any other character.
pub open spec fn digit_value(c: char) -> nat {
    if is_digit(c) {
        (c as u32 - '0' as u32) as nat
    } else {
        0
    }
}

/// The character for the digit `d`.
pub open spec fn digit_char(d: nat) -> char
    recommends
        d < 10,
{
    (('0' as u8) + (d as u8)) as char
}

/// Whether every character of `s` is an ASCII digit.
pub open spec fn all_digits(s: Seq<char>) -> bool {
    forall|i: int| 0 <= i < s.len() ==> is_digit(#[trigger] s[i])
}

/// The number that `s` denotes when read as decimal digits, most
/// significant first.
pub open spec fn decimal_value(s: Seq<char>) -> nat
    decreases s.len(),
{
    if s.len() == 0 {
        0
    } else {
        10 * decimal_value(s.drop_last()) + digit_value(s.last())
    }
}

/// `n` written in decimal, without leading zeros; zero is written `0`.
pub open spec fn decimal_text(n: nat) -> Seq<char>
    decreases n,
{
    if n < 10 {
        seq![digit_char(n)]
    } else {
        decimal_text(n / 10).push(digit_char(n % 10))
    }
}

/// `s` without one leading plus sign, if it has one.
pub open spec fn strip_sign(s: Seq<char>) -> Seq<char> {
    if s.len() > 0 && s[0] == '+' {
        s.skip(1)
    } else {
        s
    }
}

/// The unsigned number written in `s`: an optional plus sign, then one or
/// more ASCII digits whose value fits in 64 bits. Anything else is no number.
pub open spec fn number_of(s: Seq<char>) -> Option<u64> {
    let digits = strip_sign(s);
    if digits.len() > 0 && all_digits(digits) && decimal_value(digits) <= u64::MAX {
        Some(decimal_value(digits) as u64)
    } else {
        None
    }
}

/// Decimal text is made of digits only and reads back as the number that
/// was written.
pub proof fn lemma_decimal_text_reads_back(n: nat)
    ensures
        decimal_text(n).len() > 0,
        all_digits(decimal_text(n)),
        decimal_value(decimal_text(n)) == n,
    decreases n,
{
    if n < 10 {
        let s = seq![digit_char(n)];
        assert(is_digit(s[0]));
        assert(s.drop_last() =~= Seq::<char>::empty());
        assert(decimal_value(s.drop_last()) == 0);
    } else {
        lemma_decimal_text_reads_back(n / 10);
        let front = decimal_text(n / 10);
        let s = front.push(digit_char(n % 10));
        assert(s.drop_last() =~= front);
        assert(is_digit(s[s.len() - 1]));
    }
}

/// A number that fits in 64 bits is read back from its decimal text.
pub proof fn lemma_written_number_is_read(n: nat)
    requires
        n <= u64::MAX,
    ensures
        number_of(decimal_text(n)) == Some(n as u64),
{
    lemma_decimal_text_reads_back(n);
    let text = decimal_text(n);
    assert(is_digit(text[0]));
    assert(strip_sign(text) == text);
}

/// A plus sign in front of a number changes nothing; two of them are no
/// number.
pub proof fn lemma_plus_sign(s: Seq<char>)
    requires
        s.len() > 0,
        s[0] != '+',
    ensures
        number_of(seq!['+'] + s) == number_of(s),
        number_of(seq!['+', '+'] + s) is None,
{
    assert(strip_sign(seq!['+'] + s) =~= s);
    assert(strip_sign(s) == s);
    let twice = seq!['+', '+'] + s;
    assert(strip_sign(twice)[0] == '+');
}

/// A run of digits is worth at least as much as any of its prefixes.
proof fn lemma_decimal_value_prefix(s: Seq<char>, k: int)
    requires
        0 <= k <= s.len(),
    ensures
        decimal_value(s.take(k)) <= decimal_value(s),
    decreases s.len() - k,
{
    if k == s.len() {
        assert(s.take(k) =~= s);
    } else {
        lemma_decimal_value_prefix(s.drop_last(), k);
        assert(s.drop_last().take(k) =~= s.take(k));
    }
}

/// Whether no continuation of the digits `s` can be a number: some character
/// is not a digit, or the value is already out of range.
spec fn hopeless(s: Seq<char>) -> bool {
    !all_digits(s) || decimal_value(s) > u64::MAX
}

proof fn lemma_hopeless_extends(s: Seq<char>, c: char)
    requires
        hopeless(s),
    ensures
        hopeless(s.push(c)),
{
    let t = s.push(c);
    assert(t.take(s.len() as int) =~= s);
    lemma_decimal_value_prefix(t, s.len() as int);
    if !all_digits(s) {
        let i = choose|i: int| 0 <= i < s.len() && !is_digit(#[trigger] s[i]);
        assert(t[i] == s[i]);
    }
}

/// Reads an unsigned decimal number.
pub fn parse_number(text: &str) -> (value: Option<u64>)
    ensures
        value == number_of(text@),
{
    let mut total: u64 = 0;
    let mut valid: bool = true;
    let mut any_digit: bool = false;
    let mut at_start: bool = true;
    for c in it: text.chars()
        invariant
            it.seq() == text@,
            at_start == (it.index() == 0),
            valid ==> all_digits(strip_sign(text@.take(it.index() as int))),
            valid ==> total == decimal_value(strip_sign(text@.take(it.index() as int))),
            !valid ==> hopeless(strip_sign(text@.take(it.index() as int))),
            any_digit == (strip_sign(text@.take(it.index() as int)).len() > 0),
    {
        let ghost before = text@.take(it.index() as int);
        let ghost after = text@.take(it.index() + 1);
        proof {
            assert(after =~= before.push(c));
            if it.index() == 0 {
                assert(strip_sign(before) =~= Seq::<char>::empty());
                if c == '+' {
                    assert(strip_sign(after) =~= Seq::<char>::empty());
                } else {
                    assert(strip_sign(after) =~= strip_sign(before).push(c));
                }
            } else {
                assert(after[0] == before[0]);
                assert(strip_sign(after) =~= strip_sign(before).push(c));
            }
        }
        if at_start && c == '+' {
            // a leading sign carries no value
        } else {
            proof {
                assert(strip_sign(after).drop_last() =~= strip_sign(before));
            }
            any_digit = true;
            if !valid {
                proof {
                    lemma_hopeless_extends(strip_sign(before), c);
                }
            } else if '0' <= c && c <= '9' {
                let d: u64 = (c as u32 - '0' as u32) as u64;
                if total > (u64::MAX - d) / 10 {
                    valid = false;
                } else {
                    total = total * 10 + d;
                }
            } else {
                valid = false;
                proof {
                    let t = strip_sign(after);
                    assert(!is_digit(t[t.len() - 1]));
                }
            }
        }
        at_start = false;
    }
    proof {
        assert(text@.take(text@.len() as int) =~= text@);
    }
    if valid && any_digit {
        Some(total)
    } else {
        None
    }
}

/// The character for a single digit.
fn digit(d: u64) -> (c: char)
    requires
        d < 10,
    ensures
        c == digit_char(d as nat),
{
    (('0' as u8) + (d as u8)) as char
}

/// Appends `n` in decimal to `out`.
pub fn push_decimal(out: &mut String, n: u64)
    ensures
        final(out)@ == old(out)@ + decimal_text(n as nat),
    decreases n,
{
    if n >= 10 {
        push_decimal(out, n / 10);
    }
    out.push(digit(n % 10));
    proof {
        if n >= 10 {
            assert(old(out)@ + decimal_text((n / 10) as nat).push(digit_char((n % 10) as nat))
                =~= (old(out)@ + decimal_text((n / 10) as nat)).push(digit_char((n % 10) as nat)));
        } else {
            assert(old(out)@ + seq![digit_char(n as nat)] =~= old(out)@.push(
                digit_char(n as nat),
            ));
        }
    }
}

} // verus!
