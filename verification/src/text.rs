//! Numbers written out in decimal, as the encoder's command line takes them.

use vstd::prelude::*;

use crate::time::{Seconds, TICKS_PER_SECOND};

verus! {

/// The character for the digit `digit`.
pub open spec fn digit_char(digit: int) -> char {
    if digit == 0 {
        '0'
    } else if digit == 1 {
        '1'
    } else if digit == 2 {
        '2'
    } else if digit == 3 {
        '3'
    } else if digit == 4 {
        '4'
    } else if digit == 5 {
        '5'
    } else if digit == 6 {
        '6'
    } else if digit == 7 {
        '7'
    } else if digit == 8 {
        '8'
    } else {
        '9'
    }
}

/// `number` in decimal, without leading zeros.
pub open spec fn decimal(number: nat) -> Seq<char>
    decreases number,
{
    if number < 10 {
        seq![digit_char(number as int)]
    } else {
        decimal(number / 10).push(digit_char((number % 10) as int))
    }
}

/// The last `width` decimal digits of `number`, with zeros in front where
/// it has fewer.
pub open spec fn padded_decimal(number: nat, width: nat) -> Seq<char>
    decreases width,
{
    if width == 0 {
        Seq::empty()
    } else {
        padded_decimal(number / 10, (width - 1) as nat).push(digit_char((number % 10) as int))
    }
}

/// The last `width` decimal digits of `number` as the digits after a
/// decimal point: zeros in front where it has fewer, and none at the end.
pub open spec fn fraction_digits(number: nat, width: nat) -> Seq<char>
    decreases width,
{
    if width == 0 {
        Seq::empty()
    } else if number % 10 == 0 {
        fraction_digits(number / 10, (width - 1) as nat)
    } else {
        padded_decimal(number, width)
    }
}

/// The nanoseconds, rounded down, in a fraction of `fraction` units of
/// 2^-64 s.
pub open spec fn fraction_nanos(fraction: u64) -> nat {
    (fraction * 1_000_000_000 / 0x1_0000_0000_0000_0000) as nat
}

/// A position at or after the start as the shortest decimal number of
/// seconds that gives it to the nanosecond, rounded down, followed by the
/// unit: `2.5s`, `0s`.
pub open spec fn seconds_text(position: Seconds) -> Seq<char> {
    let nanos = fraction_nanos(position.fraction);
    decimal(position.whole as nat) + if nanos == 0 {
        Seq::empty()
    } else {
        seq!['.'] + fraction_digits(nanos, 9)
    } + seq!['s']
}

/// A position as hours, minutes and seconds to the hundredth, rounded down:
/// `1:02:03.45`. A position before the start is shown as the start.
pub open spec fn time_text(position: Seconds) -> Seq<char> {
    let whole: nat = if position.whole < 0 {
        0
    } else {
        position.whole as nat
    };
    let hundredths: nat = if position.whole < 0 {
        0
    } else {
        (position.fraction * 100 / 0x1_0000_0000_0000_0000) as nat
    };
    decimal(whole / 3600) + seq![':'] + padded_decimal((whole / 60) % 60, 2) + seq![':']
        + padded_decimal(whole % 60, 2) + seq!['.'] + padded_decimal(hundredths, 2)
}

/// The digit `digit` as text.
fn digit_text(digit: u64) -> (text: &'static str)
    requires
        digit < 10,
    ensures
        text@ == seq![digit_char(digit as int)],
{
    proof {
        reveal_strlit("0");
        reveal_strlit("1");
        reveal_strlit("2");
        reveal_strlit("3");
        reveal_strlit("4");
        reveal_strlit("5");
        reveal_strlit("6");
        reveal_strlit("7");
        reveal_strlit("8");
        reveal_strlit("9");
    }
    let text = if digit == 0 {
        "0"
    } else if digit == 1 {
        "1"
    } else if digit == 2 {
        "2"
    } else if digit == 3 {
        "3"
    } else if digit == 4 {
        "4"
    } else if digit == 5 {
        "5"
    } else if digit == 6 {
        "6"
    } else if digit == 7 {
        "7"
    } else if digit == 8 {
        "8"
    } else {
        "9"
    };
    assert(text@ =~= seq![digit_char(digit as int)]);
    text
}

/// `number` in decimal, without leading zeros.
pub fn decimal_string(number: u128) -> (text: String)
    ensures
        text@ == decimal(number as nat),
    decreases number,
{
    if number < 10 {
        String::from_str(digit_text(number as u64))
    } else {
        let mut text = decimal_string(number / 10);
        text.append(digit_text((number % 10) as u64));
        assert(text@ =~= decimal(number as nat));
        text
    }
}

/// The last `width` decimal digits of `number`, with zeros in front where
/// it has fewer.
pub fn padded_decimal_string(number: u64, width: u32) -> (text: String)
    ensures
        text@ == padded_decimal(number as nat, width as nat),
    decreases width,
{
    if width == 0 {
        let text = String::new();
        assert(text@ =~= padded_decimal(number as nat, 0));
        text
    } else {
        let mut text = padded_decimal_string(number / 10, width - 1);
        text.append(digit_text(number % 10));
        assert(text@ =~= padded_decimal(number as nat, width as nat));
        text
    }
}

/// The digits of `number` after a decimal point, as [`fraction_digits`]
/// writes them.
pub fn fraction_digits_string(number: u64, width: u32) -> (text: String)
    ensures
        text@ == fraction_digits(number as nat, width as nat),
    decreases width,
{
    if width == 0 {
        let text = String::new();
        assert(text@ =~= fraction_digits(number as nat, 0));
        text
    } else if number % 10 == 0 {
        fraction_digits_string(number / 10, width - 1)
    } else {
        padded_decimal_string(number, width)
    }
}

/// The nanoseconds in a fraction, as [`fraction_nanos`] counts them.
fn nanos_of(fraction: u64) -> (nanos: u64)
    ensures
        nanos == fraction_nanos(fraction),
        nanos < 1_000_000_000,
{
    let scaled: u128 = (fraction as u128) * 1_000_000_000;
    let nanos: u128 = scaled / TICKS_PER_SECOND;
    nanos as u64
}

/// A position at or after the start, as [`seconds_text`] writes it.
pub fn seconds_string(position: Seconds) -> (text: String)
    requires
        position.whole >= 0,
    ensures
        text@ == seconds_text(position),
{
    let mut text = decimal_string(position.whole as u128);
    let nanos = nanos_of(position.fraction);
    proof {
        reveal_strlit(".");
        reveal_strlit("s");
    }
    if nanos != 0 {
        text.append(".");
        let fraction = fraction_digits_string(nanos, 9);
        text.append(fraction.as_str());
    }
    text.append("s");
    assert(text@ =~= seconds_text(position));
    text
}

/// A position as hours, minutes and seconds, as [`time_text`] writes it.
pub fn format_time(time: Seconds) -> (text: String)
    ensures
        text@ == time_text(time),
{
    let whole: u128 = if time.whole < 0 {
        0
    } else {
        time.whole as u128
    };
    let hundredths: u64 = if time.whole < 0 {
        0
    } else {
        (((time.fraction as u128) * 100) / TICKS_PER_SECOND) as u64
    };
    proof {
        reveal_strlit(":");
        reveal_strlit(".");
    }
    let mut text = decimal_string(whole / 3600);
    text.append(":");
    let minutes = padded_decimal_string(((whole / 60) % 60) as u64, 2);
    text.append(minutes.as_str());
    text.append(":");
    let seconds = padded_decimal_string((whole % 60) as u64, 2);
    text.append(seconds.as_str());
    text.append(".");
    let fraction = padded_decimal_string(hundredths, 2);
    text.append(fraction.as_str());
    assert(text@ =~= time_text(time));
    text
}

} // verus!
