//! The duration formatter: a remaining time, given in whole milliseconds,
//! rendered as a zero-padded "MM:SS" string. The value is rounded up to the
//! next whole second, so a sub-second remainder still displays as one second.

use vstd::prelude::*;

verus! {

/// The character for a single decimal digit.
pub open spec fn digit_char(d: int) -> char {
    if d == 0 {
        '0'
    } else if d == 1 {
        '1'
    } else if d == 2 {
        '2'
    } else if d == 3 {
        '3'
    } else if d == 4 {
        '4'
    } else if d == 5 {
        '5'
    } else if d == 6 {
        '6'
    } else if d == 7 {
        '7'
    } else if d == 8 {
        '8'
    } else {
        '9'
    }
}

/// The decimal digits of `n`, most significant first, with no leading zeros.
pub open spec fn dec_digits(n: nat) -> Seq<char>
    decreases n,
{
    if n < 10 {
        seq![digit_char(n as int)]
    } else {
        dec_digits(n / 10).push(digit_char((n % 10) as int))
    }
}

/// A decimal field of at least two digits, zero-padded on the left; a value
/// of one hundred or more simply prints as a wider field.
pub open spec fn padded_field(n: nat) -> Seq<char> {
    if n < 10 {
        seq!['0', digit_char(n as int)]
    } else {
        dec_digits(n)
    }
}

/// Whole seconds displayed for `millis` milliseconds: the value rounded up
/// to the next whole second.
pub open spec fn ceil_seconds(millis: nat) -> nat {
    millis / 1000 + if millis % 1000 == 0 {
        0nat
    } else {
        1nat
    }
}

/// The full "MM:SS" text displayed for `millis` milliseconds of remaining
/// time: minutes and seconds of the rounded-up value, each zero-padded to
/// two digits, separated by a colon.
pub open spec fn label_of(millis: nat) -> Seq<char> {
    padded_field(ceil_seconds(millis) / 60) + seq![':'] + padded_field(ceil_seconds(millis) % 60)
}

/// Whether `c` is a decimal digit character.
pub open spec fn is_digit(c: char) -> bool {
    ||| c == '0'
    ||| c == '1'
    ||| c == '2'
    ||| c == '3'
    ||| c == '4'
    ||| c == '5'
    ||| c == '6'
    ||| c == '7'
    ||| c == '8'
    ||| c == '9'
}

proof fn lemma_field_shape(n: nat)
    requires
        n < 100,
    ensures
        padded_field(n).len() == 2,
        is_digit(padded_field(n)[0]),
        is_digit(padded_field(n)[1]),
{
    if n >= 10 {
        assert(dec_digits(n) == dec_digits(n / 10).push(digit_char((n % 10) as int)));
        assert(dec_digits(n / 10) == seq![digit_char((n / 10) as int)]);
    }
}

/// For every duration within the two-digit-minutes domain — any number of
/// milliseconds that rounds up to under one hundred minutes — the display
/// text is exactly five characters: two digits, a colon, two digits.
pub proof fn lemma_label_shape(millis: u64)
    requires
        millis <= 5_999_000,
    ensures
        label_of(millis as nat).len() == 5,
        is_digit(label_of(millis as nat)[0]),
        is_digit(label_of(millis as nat)[1]),
        label_of(millis as nat)[2] == ':',
        is_digit(label_of(millis as nat)[3]),
        is_digit(label_of(millis as nat)[4]),
{
    let t = ceil_seconds(millis as nat);
    assert(t < 6000);
    assert(t / 60 < 100);
    assert(t % 60 < 60);
    lemma_field_shape(t / 60);
    lemma_field_shape(t % 60);
}

fn digit_str(d: u64) -> (r: &'static str)
    requires
        d < 10,
    ensures
        r@ == seq![digit_char(d as int)],
{
    let r: &'static str = match d {
        0 => "0",
        1 => "1",
        2 => "2",
        3 => "3",
        4 => "4",
        5 => "5",
        6 => "6",
        7 => "7",
        8 => "8",
        _ => "9",
    };
    proof {
        reveal_strlit("0");
        reveal_strlit("1");
        reveal_strlit("2");
        reveal_strlit("3");
        reveal_strlit("4");
        reveal_strlit("5");
        reveal_strlit("6");
        reveal_strlit("7");
        reveal_strlit("8");
        reveal_strlit("9");
        assert(r@ =~= seq![digit_char(d as int)]);
    }
    r
}

fn push_dec(s: &mut String, n: u64)
    ensures
        final(s)@ == old(s)@ + dec_digits(n as nat),
    decreases n,
{
    if n < 10 {
        s.append(digit_str(n));
    } else {
        push_dec(s, n / 10);
        s.append(digit_str(n % 10));
    }
    proof {
        assert(final(s)@ =~= old(s)@ + dec_digits(n as nat));
    }
}

fn push_field(s: &mut String, n: u64)
    ensures
        final(s)@ == old(s)@ + padded_field(n as nat),
{
    if n < 10 {
        s.append("0");
        s.append(digit_str(n));
        proof {
            reveal_strlit("0");
            assert(final(s)@ =~= old(s)@ + padded_field(n as nat));
        }
    } else {
        push_dec(s, n);
    }
}

/// Render `millis` milliseconds of remaining time as its "MM:SS" display
/// string, rounding up to the next whole second.
pub fn seconds_to_label(millis: u64) -> (r: String)
    ensures
        r@ == label_of(millis as nat),
{
    let q: u64 = millis / 1000;
    let total: u64 = if millis % 1000 == 0 {
        q
    } else {
        q + 1
    };
    assert(total == ceil_seconds(millis as nat));
    let minutes: u64 = total / 60;
    let secs: u64 = total % 60;
    let mut s = String::new();
    push_field(&mut s, minutes);
    s.append(":");
    push_field(&mut s, secs);
    proof {
        reveal_strlit(":");
        assert(s@ =~= label_of(millis as nat));
    }
    s
}

} // verus!
