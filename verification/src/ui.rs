//! What the countdown display shows: the time left as clock text, and the
//! two numbers behind the progress bar.

use vstd::prelude::*;

use crate::decimal::{decimal_text, digit_char, lemma_decimal_text_reads_back, push_decimal};

verus! {

/// `n` written in decimal with at least two digits: a zero is put in front
/// of a single digit.
pub open spec fn two_digits(n: nat) -> Seq<char> {
    if n < 10 {
        seq!['0', digit_char(n)]
    } else {
        decimal_text(n)
    }
}

/// A number of seconds as clock text: minutes and seconds, two digits each
/// and separated by a colon, with the hours in front once there is a whole
/// hour.
pub open spec fn clock_text(seconds: nat) -> Seq<char> {
    let hours = seconds / 3600;
    let minutes = (seconds % 3600) / 60;
    let secs = seconds % 60;
    if hours > 0 {
        two_digits(hours) + seq![':'] + two_digits(minutes) + seq![':'] + two_digits(secs)
    } else {
        two_digits(minutes) + seq![':'] + two_digits(secs)
    }
}

/// Clock text ends in a colon and two digits of seconds. Below one hour it
/// has five characters, from there to a hundred hours eight, and more
/// beyond.
pub proof fn lemma_clock_text_shape(seconds: nat)
    ensures
        clock_text(seconds).len() >= 5,
        clock_text(seconds)[clock_text(seconds).len() - 3] == ':',
        seconds < 3600 <==> clock_text(seconds).len() == 5,
        3600 <= seconds < 360000 <==> clock_text(seconds).len() == 8,
{
    let minutes = (seconds % 3600) / 60;
    let secs = seconds % 60;
    lemma_two_digits_len(minutes);
    lemma_two_digits_len(secs);
    lemma_two_digits_len(seconds / 3600);
}

/// Numbers below a hundred take exactly two digits, larger ones more.
pub proof fn lemma_two_digits_len(n: nat)
    ensures
        two_digits(n).len() >= 2,
        n < 100 <==> two_digits(n).len() == 2,
    decreases n,
{
    if n >= 10 {
        lemma_two_digits_len(n / 10);
        lemma_decimal_text_reads_back(n / 10);
        if n < 100 {
            assert(decimal_text(n / 10).len() == 1);
        }
    }
}

/// Appends `n` in decimal to `out`, with a leading zero if it is a single
/// digit.
fn push_two_digits(out: &mut String, n: u64)
    ensures
        final(out)@ == old(out)@ + two_digits(n as nat),
{
    if n < 10 {
        out.push('0');
        push_decimal(out, n);
        proof {
            assert(old(out)@.push('0') + seq![digit_char(n as nat)] =~= old(out)@ + seq![
                '0',
                digit_char(n as nat),
            ]);
        }
    } else {
        push_decimal(out, n);
    }
}

/// Formats a number of seconds as `MM:SS`, or as `HH:MM:SS` from one hour
/// on.
pub fn format_time(seconds: u64) -> (text: String)
    ensures
        text@ == clock_text(seconds as nat),
{
    let hours = seconds / 3600;
    let minutes = (seconds % 3600) / 60;
    let secs = seconds % 60;
    let mut text = String::new();
    if hours > 0 {
        push_two_digits(&mut text, hours);
        text.push(':');
    }
    push_two_digits(&mut text, minutes);
    text.push(':');
    push_two_digits(&mut text, secs);
    proof {
        let h = two_digits(hours as nat);
        let m = two_digits(minutes as nat);
        let s = two_digits(secs as nat);
        if hours > 0 {
            assert(((Seq::<char>::empty() + h).push(':') + m).push(':') + s =~= h + seq![':'] + m
                + seq![':'] + s);
        } else {
            assert((Seq::<char>::empty() + m).push(':') + s =~= m + seq![':'] + s);
        }
    }
    text
}

/// What the countdown display is asked to show.
#[derive(Debug)]
pub struct CountdownScreen {
    /// The time left, as clock text.
    pub time_text: String,
    /// The seconds left: the filled part of the progress bar.
    pub remaining_secs: u64,
    /// The seconds counted down from: the whole progress bar.
    pub total_secs: u64,
}

/// Lays out the countdown display for `remaining_secs` left of
/// `total_secs`.
///
/// The progress bar shows the one as a fraction of the other, so no more
/// may be left than the total.
pub fn render(remaining_secs: u64, total_secs: u64) -> (screen: CountdownScreen)
    requires
        remaining_secs <= total_secs,
    ensures
        screen.time_text@ == clock_text(remaining_secs as nat),
        screen.remaining_secs == remaining_secs,
        screen.total_secs == total_secs,
{
    CountdownScreen { time_text: format_time(remaining_secs), remaining_secs, total_secs }
}

} // verus!
