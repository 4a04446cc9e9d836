use vstd::prelude::*;

verus! {

/// Nanoseconds in one second.
pub const NANOS_PER_SEC: u128 = 1_000_000_000;

/// The longest span of time the stopwatch can hold: `u64::MAX` whole seconds
/// plus the largest sub-second remainder.
pub const MAX_SPAN: u128 = 18_446_744_073_709_551_615_999_999_999;

/// The decimal digit `d` as a character.
pub open spec fn digit_char(d: nat) -> char {
    if d == 0 {
        '0'
    } else if d == 1 {
        '1'
    } else if d == 2 {
        '2'
    } else if d == 3 {
        '3'
    } else if d == 4 {
        '4'
    } else if d == 5 {
        '5'
    } else if d == 6 {
        '6'
    } else if d == 7 {
        '7'
    } else if d == 8 {
        '8'
    } else {
        '9'
    }
}

/// The decimal numeral of `n`, without leading zeros.
pub open spec fn decimal(n: nat) -> Seq<char>
    decreases n,
{
    if n < 10 {
        seq![digit_char(n)]
    } else {
        decimal(n / 10).push(digit_char(n % 10))
    }
}

/// The decimal numeral of `n`, padded with a zero to at least two digits.
pub open spec fn padded2(n: nat) -> Seq<char> {
    if n < 10 {
        seq!['0'] + decimal(n)
    } else {
        decimal(n)
    }
}

/// `HH:MM:SS` for a whole number of seconds; the hours are not bounded.
pub open spec fn clock_of_secs(secs: nat) -> Seq<char> {
    padded2(secs / 3600) + seq![':'] + padded2((secs % 3600) / 60) + seq![':'] + padded2(secs % 60)
}

/// The display text of a span of `nanos` nanoseconds: its whole seconds as `HH:MM:SS`.
pub open spec fn duration_text(nanos: nat) -> Seq<char> {
    clock_of_secs(nanos / NANOS_PER_SEC as nat)
}

fn digit_text(d: u64) -> (r: &'static str)
    requires
        d < 10,
    ensures
        r@ == seq![digit_char(d as nat)],
{
    if d == 0 {
        proof { reveal_strlit("0"); }
        "0"
    } else if d == 1 {
        proof { reveal_strlit("1"); }
        "1"
    } else if d == 2 {
        proof { reveal_strlit("2"); }
        "2"
    } else if d == 3 {
        proof { reveal_strlit("3"); }
        "3"
    } else if d == 4 {
        proof { reveal_strlit("4"); }
        "4"
    } else if d == 5 {
        proof { reveal_strlit("5"); }
        "5"
    } else if d == 6 {
        proof { reveal_strlit("6"); }
        "6"
    } else if d == 7 {
        proof { reveal_strlit("7"); }
        "7"
    } else if d == 8 {
        proof { reveal_strlit("8"); }
        "8"
    } else {
        proof { reveal_strlit("9"); }
        "9"
    }
}

/// Appends the decimal numeral of `n` to `out`.
fn push_decimal(out: &mut String, n: u64)
    ensures
        final(out)@ == old(out)@ + decimal(n as nat),
    decreases n,
{
    if n < 10 {
        out.append(digit_text(n));
    } else {
        push_decimal(out, n / 10);
        out.append(digit_text(n % 10));
        assert(decimal(n as nat) == decimal((n / 10) as nat).push(digit_char((n % 10) as nat)));
    }
}

/// Appends `n` zero-padded to two digits.
fn push_padded2(out: &mut String, n: u64)
    ensures
        final(out)@ == old(out)@ + padded2(n as nat),
{
    if n < 10 {
        proof { reveal_strlit("0"); }
        out.append("0");
    }
    push_decimal(out, n);
}

/// Formats a span of `nanos` nanoseconds as `HH:MM:SS`, zero-padded, with
/// unbounded hours; the sub-second part is dropped.
pub fn format_duration(nanos: u128) -> (r: String)
    requires
        nanos <= MAX_SPAN,
    ensures
        r@ == duration_text(nanos as nat),
{
    let secs: u64 = (nanos / NANOS_PER_SEC) as u64;
    let mut out = String::new();
    push_padded2(&mut out, secs / 3600);
    proof { reveal_strlit(":"); }
    out.append(":");
    push_padded2(&mut out, (secs % 3600) / 60);
    out.append(":");
    push_padded2(&mut out, secs % 60);
    out
}

} // verus!
