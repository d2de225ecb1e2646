//! Durations written as a whole number followed by a unit letter.

use vstd::prelude::*;
use vstd::string::*;

use crate::decimal::{
    decimal_text, lemma_decimal_text_reads_back, lemma_written_number_is_read, number_of,
    parse_number,
};

verus! {

/// How many seconds one step of the unit `unit` lasts: a minute for `m`, an
/// hour for `h`, a second for `s` and for every other character.
pub open spec fn unit_seconds(unit: char) -> nat {
    if unit == 'm' {
        60
    } else if unit == 'h' {
        3600
    } else {
        1
    }
}

/// The duration in seconds that `text` stands for.
///
/// The last character is the unit and what precedes it the count. A text of
/// fewer than two characters has no room for both and stands for zero, as
/// does a count that is no number and a product that exceeds 64 bits.
pub open spec fn duration_seconds(text: Seq<char>) -> nat {
    if text.len() < 2 {
        0
    } else {
        let count: nat = match number_of(text.drop_last()) {
            Some(n) => n as nat,
            None => 0,
        };
        let total = count * unit_seconds(text.last());
        if total <= u64::MAX {
            total
        } else {
            0
        }
    }
}

/// A text of fewer than two characters stands for no time at all, even if
/// its one character is a digit.
pub proof fn lemma_short_text_is_zero(text: Seq<char>)
    requires
        text.len() < 2,
    ensures
        duration_seconds(text) == 0,
{
}

/// The decimal text of `n` followed by a unit letter stands for `n` steps of
/// that unit, as long as that many seconds fit in 64 bits.
pub proof fn lemma_written_duration_is_read(n: nat, unit: char)
    requires
        n * unit_seconds(unit) <= u64::MAX,
    ensures
        duration_seconds(decimal_text(n).push(unit)) == n * unit_seconds(unit),
{
    let text = decimal_text(n).push(unit);
    lemma_decimal_text_reads_back(n);
    assert(text.drop_last() =~= decimal_text(n));
    assert(n <= n * unit_seconds(unit)) by (nonlinear_arith)
        requires
            unit_seconds(unit) >= 1,
    ;
    lemma_written_number_is_read(n);
}

/// Every unit letter other than `m` and `h` means seconds, as `s` does.
pub proof fn lemma_unknown_unit_is_seconds(count: Seq<char>, unit: char)
    requires
        unit != 'm',
        unit != 'h',
    ensures
        duration_seconds(count.push(unit)) == duration_seconds(count.push('s')),
{
    assert(count.push(unit).drop_last() =~= count);
    assert(count.push('s').drop_last() =~= count);
}

/// Turns a duration text such as `10s`, `5m` or `1h` into whole seconds.
///
/// Nothing is ever rejected: what cannot be read counts as zero.
pub fn parse_duration(time_str: &str) -> (secs: u64)
    ensures
        secs == duration_seconds(time_str@),
{
    let len = time_str.unicode_len();
    if len < 2 {
        return 0;
    }
    let unit = time_str.get_char(len - 1);
    let num_part = time_str.substring_char(0, len - 1);
    proof {
        assert(num_part@ =~= time_str@.drop_last());
    }
    let number: u64 = match parse_number(num_part) {
        Some(n) => n,
        None => 0,
    };
    if unit == 'm' {
        if number <= u64::MAX / 60 {
            number * 60
        } else {
            0
        }
    } else if unit == 'h' {
        if number <= u64::MAX / 3600 {
            number * 3600
        } else {
            0
        }
    } else {
        number
    }
}

} // verus!
