//! Decimal rendering of numbers and human-readable sizes.

use vstd::prelude::*;

verus! {

/// The decimal digit for `d < 10`.
pub open spec fn digit_char(d: nat) -> char {
    if d == 0 { '0' } else if d == 1 { '1' } else if d == 2 { '2' } else if d == 3 { '3' }
    else if d == 4 { '4' } else if d == 5 { '5' } else if d == 6 { '6' } else if d == 7 { '7' }
    else if d == 8 { '8' } else { '9' }
}

/// Decimal notation of `n`, without sign or leading zeros.
pub open spec fn decimal(n: nat) -> Seq<char>
    decreases n,
{
    if n < 10 {
        seq![digit_char(n)]
    } else {
        decimal(n / 10).push(digit_char(n % 10))
    }
}

fn digit_str(d: u64) -> (r: &'static str)
    requires
        d < 10,
    ensures
        r@ == seq![digit_char(d as nat)],
{
    proof {
        reveal_strlit("0"); reveal_strlit("1"); reveal_strlit("2"); reveal_strlit("3");
        reveal_strlit("4"); reveal_strlit("5"); reveal_strlit("6"); reveal_strlit("7");
        reveal_strlit("8"); reveal_strlit("9");
    }
    if d == 0 { "0" } else if d == 1 { "1" } else if d == 2 { "2" } else if d == 3 { "3" }
    else if d == 4 { "4" } else if d == 5 { "5" } else if d == 6 { "6" } else if d == 7 { "7" }
    else if d == 8 { "8" } else { "9" }
}

/// Appends the decimal notation of `n` to `out`.
pub fn push_decimal(out: &mut String, n: u64)
    ensures
        final(out)@ == old(out)@ + decimal(n as nat),
    decreases n,
{
    if n < 10 {
        out.append(digit_str(n));
    } else {
        push_decimal(out, n / 10);
        out.append(digit_str(n % 10));
        proof {
            assert(old(out)@ + decimal(n as nat) =~= old(out)@ + decimal((n / 10) as nat) + seq![digit_char((n % 10) as nat)]);
        }
    }
}

/// The decimal notation of `n`.
pub fn decimal_string(n: u64) -> (r: String)
    ensures
        r@ == decimal(n as nat),
{
    let mut s = String::new();
    push_decimal(&mut s, n);
    proof {
        assert(Seq::<char>::empty() + decimal(n as nat) =~= decimal(n as nat));
    }
    s
}

/// `head`, then the decimal notation of `n`, then `tail`.
pub fn with_number(head: &str, n: u64, tail: &str) -> (r: String)
    ensures
        r@ == head@ + decimal(n as nat) + tail@,
{
    let mut s = String::from_str(head);
    push_decimal(&mut s, n);
    s.append(tail);
    s
}

/// `head` followed by `tail`.
pub fn joined(head: &str, tail: &str) -> (r: String)
    ensures
        r@ == head@ + tail@,
{
    String::from_str(head).concat(tail)
}

pub const KIB: u64 = 1024;
pub const MIB: u64 = 1048576;
pub const GIB: u64 = 1073741824;

/// `bytes / unit` in hundredths, rounded to the nearest, ties to even.
pub open spec fn hundredths(bytes: nat, unit: nat) -> nat
    recommends
        unit > 0,
{
    let q = (bytes * 100) / unit;
    let r = (bytes * 100) % unit;
    if 2 * r > unit || (2 * r == unit && q % 2 == 1) {
        q + 1
    } else {
        q
    }
}

/// `h` hundredths written with two decimals, as in `12.05`.
pub open spec fn two_decimals(h: nat) -> Seq<char> {
    decimal(h / 100) + seq!['.', digit_char((h % 100) / 10), digit_char(h % 10)]
}

/// A byte count in the largest of B, KB, MB, GB (powers of 1024) that it
/// reaches, with two decimals above bytes.
pub open spec fn size_text(bytes: nat) -> Seq<char> {
    if bytes >= GIB {
        two_decimals(hundredths(bytes, GIB as nat)) + " GB"@
    } else if bytes >= MIB {
        two_decimals(hundredths(bytes, MIB as nat)) + " MB"@
    } else if bytes >= KIB {
        two_decimals(hundredths(bytes, KIB as nat)) + " KB"@
    } else {
        decimal(bytes) + " B"@
    }
}

fn push_two_decimals(out: &mut String, bytes: u64, unit: u64)
    requires
        unit >= KIB,
    ensures
        final(out)@ == old(out)@ + two_decimals(hundredths(bytes as nat, unit as nat)),
{
    let scaled: u128 = (bytes as u128) * 100;
    let q: u128 = scaled / (unit as u128);
    let r: u128 = scaled % (unit as u128);
    let h: u128 = if 2 * r > unit as u128 || (2 * r == unit as u128 && q % 2 == 1) { q + 1 } else { q };
    proof {
        vstd::arithmetic::div_mod::lemma_div_is_ordered_by_denominator(scaled as int, 1024, unit as int);
        assert(scaled <= 0xffff_ffff_ffff_ffffu128 * 100);
        assert(scaled / 1024 <= 0xffff_ffff_ffff_ffffu128 * 100 / 1024);
        assert(h / 100 <= 0xffff_ffff_ffff_ffffu128);
    }
    let whole: u64 = (h / 100) as u64;
    let frac: u64 = (h % 100) as u64;
    push_decimal(out, whole);
    out.append(".");
    out.append(digit_str(frac / 10));
    out.append(digit_str(frac % 10));
    proof {
        reveal_strlit(".");
        assert(h as nat == hundredths(bytes as nat, unit as nat));
        assert(final(out)@ =~= old(out)@ + two_decimals(h as nat));
    }
}

/// A byte count in human-readable form, such as `512 B` or `1.50 KB`.
pub fn format_size(bytes: u64) -> (r: String)
    ensures
        r@ == size_text(bytes as nat),
{
    let mut out = String::new();
    let unit: &str;
    if bytes >= GIB {
        push_two_decimals(&mut out, bytes, GIB);
        unit = " GB";
    } else if bytes >= MIB {
        push_two_decimals(&mut out, bytes, MIB);
        unit = " MB";
    } else if bytes >= KIB {
        push_two_decimals(&mut out, bytes, KIB);
        unit = " KB";
    } else {
        push_decimal(&mut out, bytes);
        unit = " B";
    }
    out.append(unit);
    proof {
        assert(Seq::<char>::empty() + two_decimals(hundredths(bytes as nat, GIB as nat)) =~= two_decimals(hundredths(bytes as nat, GIB as nat)));
        assert(Seq::<char>::empty() + two_decimals(hundredths(bytes as nat, MIB as nat)) =~= two_decimals(hundredths(bytes as nat, MIB as nat)));
        assert(Seq::<char>::empty() + two_decimals(hundredths(bytes as nat, KIB as nat)) =~= two_decimals(hundredths(bytes as nat, KIB as nat)));
        assert(Seq::<char>::empty() + decimal(bytes as nat) =~= decimal(bytes as nat));
    }
    out
}

} // verus!
