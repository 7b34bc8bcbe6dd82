//! The rendered frame: one line of text, a phase label followed by the
//! remaining time as zero-padded minutes and seconds.

use vstd::prelude::*;
use crate::timer::Phase;

verus! {

/// The decimal digit character for a value in 0..=9.
pub open spec fn digit_char(d: int) -> char {
    if d == 0 {
        '0'
    } else if d == 1 {
        '1'
    } else if d == 2 {
        '2'
    } else if d == 3 {
        '3'
    } else if d == 4 {
        '4'
    } else if d == 5 {
        '5'
    } else if d == 6 {
        '6'
    } else if d == 7 {
        '7'
    } else if d == 8 {
        '8'
    } else {
        '9'
    }
}

/// The decimal representation of `n`, most significant digit first,
/// without leading zeros (a single `'0'` for zero itself).
pub open spec fn dec_rep(n: nat) -> Seq<char>
    decreases n,
{
    if n < 10 {
        seq![digit_char(n as int)]
    } else {
        dec_rep(n / 10) + seq![digit_char((n % 10) as int)]
    }
}

/// The decimal representation of `n`, zero-padded on the left to at
/// least two digits.
pub open spec fn padded2(n: nat) -> Seq<char> {
    if n < 10 {
        seq!['0'] + dec_rep(n)
    } else {
        dec_rep(n)
    }
}

/// The `MM:SS` part of the frame: minutes and seconds of `t`, each
/// zero-padded to at least two digits.
pub open spec fn mmss_of(t: u16) -> Seq<char> {
    padded2((t as nat) / 60) + seq![':'] + padded2((t as nat) % 60)
}

/// The label each phase is displayed under, trailing separator included.
pub open spec fn label_of(p: Phase) -> Seq<char> {
    match p {
        Phase::Work => "Work! "@,
        Phase::LongBreak => "Long break! "@,
        Phase::ShortBreak => "Short break! "@,
    }
}

/// The whole rendered line: label, `MM:SS`, one trailing space.
pub open spec fn display_spec(time: u16, p: Phase) -> Seq<char> {
    label_of(p) + mmss_of(time) + " "@
}

/// The one-character string for a digit value.
fn digit_str(d: u16) -> (r: &'static str)
    requires
        d < 10,
    ensures
        r@ == seq![digit_char(d as int)],
{
    proof {
        reveal_strlit("0");
        reveal_strlit("1");
        reveal_strlit("2");
        reveal_strlit("3");
        reveal_strlit("4");
        reveal_strlit("5");
        reveal_strlit("6");
        reveal_strlit("7");
        reveal_strlit("8");
        reveal_strlit("9");
    }
    let r: &'static str = match d {
        0 => "0",
        1 => "1",
        2 => "2",
        3 => "3",
        4 => "4",
        5 => "5",
        6 => "6",
        7 => "7",
        8 => "8",
        _ => "9",
    };
    proof {
        assert(r@ =~= seq![digit_char(d as int)]);
    }
    r
}

/// Appends the decimal representation of `n` to `out`.
fn append_dec(out: &mut String, n: u16)
    ensures
        final(out)@ == old(out)@ + dec_rep(n as nat),
    decreases n,
{
    if n >= 10 {
        append_dec(out, n / 10);
    }
    out.append(digit_str(n % 10));
    proof {
        assert(out@ =~= old(out)@ + dec_rep(n as nat));
    }
}

/// Appends the decimal representation of `n`, zero-padded to at least
/// two digits, to `out`.
fn append_padded2(out: &mut String, n: u16)
    ensures
        final(out)@ == old(out)@ + padded2(n as nat),
{
    if n < 10 {
        proof {
            reveal_strlit("0");
        }
        out.append("0");
    }
    append_dec(out, n);
    proof {
        assert(out@ =~= old(out)@ + padded2(n as nat));
    }
}

/// Renders the frame line for a remaining time and a phase: the phase
/// label, the time as zero-padded `MM:SS`, and a trailing space.
pub fn display(time: u16, status: &Phase) -> (out: String)
    ensures
        out@ == display_spec(time, *status),
{
    let mut out: String = match status {
        Phase::Work => String::from_str("Work! "),
        Phase::LongBreak => String::from_str("Long break! "),
        Phase::ShortBreak => String::from_str("Short break! "),
    };
    append_padded2(&mut out, time / 60);
    proof {
        reveal_strlit(":");
    }
    out.append(":");
    append_padded2(&mut out, time % 60);
    out.append(" ");
    proof {
        assert(out@ =~= display_spec(time, *status));
    }
    out
}

/// The value of a decimal digit character (zero for anything else).
pub open spec fn digit_val(c: char) -> int {
    if c == '0' {
        0
    } else if c == '1' {
        1
    } else if c == '2' {
        2
    } else if c == '3' {
        3
    } else if c == '4' {
        4
    } else if c == '5' {
        5
    } else if c == '6' {
        6
    } else if c == '7' {
        7
    } else if c == '8' {
        8
    } else if c == '9' {
        9
    } else {
        0
    }
}

/// Reading a digit character back gives the value it was written from.
pub proof fn lemma_digit_val_inverse(d: int)
    requires
        0 <= d < 10,
    ensures
        digit_val(digit_char(d)) == d,
{
}

/// Below one hundred, the padded representation is exactly the tens
/// digit followed by the ones digit.
pub proof fn lemma_padded2_two_digits(n: nat)
    requires
        n < 100,
    ensures
        padded2(n) =~= seq![digit_char((n / 10) as int), digit_char((n % 10) as int)],
{
    if n < 10 {
        assert(n / 10 == 0 && n % 10 == n);
        assert(padded2(n) =~= seq!['0'] + seq![digit_char(n as int)]);
    } else {
        assert(dec_rep(n / 10) =~= seq![digit_char((n / 10) as int)]);
    }
}

/// Round trip of the display formatting: for every remaining time below
/// one hour, the rendered `MM:SS` is exactly the two-digit quotient and
/// two-digit remainder of division by 60, and reading the four digit
/// characters back recovers the time.
pub proof fn lemma_display_round_trip(t: u16)
    requires
        t <= 3599,
    ensures
        mmss_of(t) =~= seq![
            digit_char(((t as nat) / 60 / 10) as int),
            digit_char(((t as nat) / 60 % 10) as int),
            ':',
            digit_char(((t as nat) % 60 / 10) as int),
            digit_char(((t as nat) % 60 % 10) as int),
        ],
        mmss_of(t).len() == 5,
        mmss_of(t)[2] == ':',
        digit_val(mmss_of(t)[0]) * 600 + digit_val(mmss_of(t)[1]) * 60 + digit_val(
            mmss_of(t)[3],
        ) * 10 + digit_val(mmss_of(t)[4]) == t,
{
    let m = (t as nat) / 60;
    let s = (t as nat) % 60;
    lemma_padded2_two_digits(m);
    lemma_padded2_two_digits(s);
    lemma_digit_val_inverse((m / 10) as int);
    lemma_digit_val_inverse((m % 10) as int);
    lemma_digit_val_inverse((s / 10) as int);
    lemma_digit_val_inverse((s % 10) as int);
    assert(mmss_of(t) =~= seq![
        digit_char((m / 10) as int),
        digit_char((m % 10) as int),
        ':',
        digit_char((s / 10) as int),
        digit_char((s % 10) as int),
    ]);
    assert(m == m / 10 * 10 + m % 10);
    assert(s == s / 10 * 10 + s % 10);
    assert(t == m * 60 + s);
}

} // verus!
