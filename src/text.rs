//! Decimal and clock-face rendering of integers.
use vstd::prelude::*;

verus! {

/// The decimal digit character for `d < 10`.
pub open spec fn digit_char(d: nat) -> char
    recommends
        d < 10,
{
    if d == 0 {
        '0'
    } else if d == 1 {
        '1'
    } else if d == 2 {
        '2'
    } else if d == 3 {
        '3'
    } else if d == 4 {
        '4'
    } else if d == 5 {
        '5'
    } else if d == 6 {
        '6'
    } else if d == 7 {
        '7'
    } else if d == 8 {
        '8'
    } else {
        '9'
    }
}

/// The shortest decimal rendering of `n`, most significant digit first.
pub open spec fn decimal_spec(n: nat) -> Seq<char>
    decreases n,
{
    if n < 10 {
        seq![digit_char(n)]
    } else {
        decimal_spec(n / 10).push(digit_char(n % 10))
    }
}

/// `n` rendered with exactly `width` digits, zero-padded on the left and
/// keeping only the low `width` digits.
pub open spec fn padded_spec(n: nat, width: nat) -> Seq<char>
    decreases width,
{
    if width == 0 {
        Seq::empty()
    } else {
        padded_spec(n / 10, (width - 1) as nat).push(digit_char(n % 10))
    }
}

/// `HH:MM:SS` for a number of seconds after midnight.
pub open spec fn clock_spec(secs: nat) -> Seq<char> {
    padded_spec(secs / 3600, 2) + seq![':'] + padded_spec(secs / 60 % 60, 2) + seq![':']
        + padded_spec(secs % 60, 2)
}

const DIGITS: &'static str = "0123456789";

/// The one-character string of the digit `d`.
fn digit_piece(d: u64) -> (r: &'static str)
    requires
        d < 10,
    ensures
        r@ == seq![digit_char(d as nat)],
{
    proof {
        reveal_strlit("0123456789");
    }
    let i: usize = d as usize;
    let r = DIGITS.substring_ascii(i, i + 1);
    assert(r@ =~= seq![digit_char(d as nat)]);
    r
}

/// Appends the decimal rendering of `n` to `out`.
pub fn push_decimal(out: &mut String, n: u64)
    ensures
        final(out)@ == old(out)@ + decimal_spec(n as nat),
    decreases n,
{
    if n < 10 {
        out.append(digit_piece(n));
    } else {
        push_decimal(out, n / 10);
        out.append(digit_piece(n % 10));
        assert(final(out)@ =~= old(out)@ + decimal_spec(n as nat));
    }
}

/// The decimal rendering of `n`.
pub fn decimal_text(n: u64) -> (r: String)
    ensures
        r@ == decimal_spec(n as nat),
{
    let mut s = String::new();
    push_decimal(&mut s, n);
    assert(s@ =~= decimal_spec(n as nat));
    s
}

/// Appends the low `width` decimal digits of `n` to `out`, zero-padded.
pub fn push_padded(out: &mut String, n: u64, width: u32)
    ensures
        final(out)@ == old(out)@ + padded_spec(n as nat, width as nat),
    decreases width,
{
    if width == 0 {
        assert(final(out)@ =~= old(out)@ + padded_spec(n as nat, width as nat));
    } else {
        push_padded(out, n / 10, width - 1);
        out.append(digit_piece(n % 10));
        assert(final(out)@ =~= old(out)@ + padded_spec(n as nat, width as nat));
    }
}

/// Appends the one-character separator `sep` to `out`.
pub fn push_separator(out: &mut String, sep: &str)
    ensures
        final(out)@ == old(out)@ + sep@,
{
    out.append(sep);
}

/// Appends `HH:MM:SS` for `secs` seconds after midnight to `out`.
pub fn push_clock(out: &mut String, secs: u32)
    requires
        secs < 86400,
    ensures
        final(out)@ == old(out)@ + clock_spec(secs as nat),
{
    proof {
        reveal_strlit(":");
    }
    let s: u64 = secs as u64;
    push_padded(out, s / 3600, 2);
    push_separator(out, ":");
    push_padded(out, s / 60 % 60, 2);
    push_separator(out, ":");
    push_padded(out, s % 60, 2);
    assert(final(out)@ =~= old(out)@ + clock_spec(secs as nat));
}

} // verus!
