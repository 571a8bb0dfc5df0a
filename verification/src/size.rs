//! File sizes for people.

use vstd::arithmetic::power2::{lemma2_to64, lemma_pow2_unfold, pow2};
use vstd::prelude::*;

use crate::text::{
    decimal, decimal_text, digit, law_decimal_reads_back, numeral, numeral_value,
};

verus! {

/// Bytes in a kilobyte.
pub const KB: u64 = 1024;

/// Bytes in a megabyte.
pub const MB: u64 = 1_048_576;

/// Bytes in a gigabyte.
pub const GB: u64 = 1_073_741_824;

/// The whole number nearest to `num / den`; of two equally near, the even one.
pub open spec fn nearest(num: nat, den: nat) -> nat {
    let below = num / den;
    let rest = num % den;
    if 2 * rest < den || (2 * rest == den && below % 2 == 0) {
        below
    } else {
        below + 1
    }
}

/// The distance between neighbouring double precision numbers around the whole number `n`, or 1
/// where they lie closer: a double holds 53 significant bits.
pub open spec fn double_spacing(n: nat) -> nat
    decreases n,
{
    if n < 0x20_0000_0000_0000 {
        1
    } else {
        2 * double_spacing(n / 2)
    }
}

/// The double precision number nearest to `n`.
pub open spec fn as_double(n: nat) -> nat {
    nearest(n, double_spacing(n)) * double_spacing(n)
}

/// A number of hundredths, with two decimals.
pub open spec fn two_decimals(hundredths: nat) -> Seq<char> {
    decimal(hundredths / 100) + "."@ + seq![digit(hundredths / 10 % 10), digit(hundredths % 10)]
}

/// `bytes` counted in `unit`, as a double precision number, to two decimals.
pub open spec fn in_unit(bytes: nat, unit: nat) -> Seq<char> {
    two_decimals(nearest(100 * as_double(bytes), unit))
}

/// A size in the largest unit that it reaches: whole bytes below a kilobyte, two decimals above.
pub open spec fn readable_size(bytes: nat) -> Seq<char> {
    if bytes >= GB {
        in_unit(bytes, GB as nat) + " GB"@
    } else if bytes >= MB {
        in_unit(bytes, MB as nat) + " MB"@
    } else if bytes >= KB {
        in_unit(bytes, KB as nat) + " KB"@
    } else {
        decimal(bytes) + " bytes"@
    }
}

fn nearest_whole(num: u128, den: u128) -> (res: u128)
    requires
        0 < den <= u64::MAX,
        num < u128::MAX,
    ensures
        res == nearest(num as nat, den as nat),
{
    let below: u128 = num / den;
    let rest: u128 = num % den;
    if 2 * rest < den || (2 * rest == den && below % 2 == 0) {
        below
    } else {
        assert(below <= num) by (nonlinear_arith)
            requires
                den > 0,
                below == num / den,
        ;
        below + 1
    }
}

proof fn lemma_spacing(n: nat)
    ensures
        double_spacing(n) >= 1,
        n <= u64::MAX ==> double_spacing(n) <= 2048,
{
    reveal_with_fuel(double_spacing, 13);
    lemma_spacing_positive(n);
}

proof fn lemma_spacing_positive(n: nat)
    ensures
        double_spacing(n) >= 1,
    decreases n,
{
    if n >= 0x20_0000_0000_0000 {
        lemma_spacing_positive(n / 2);
    }
}

fn spacing_of(n: u64) -> (res: u64)
    ensures
        res == double_spacing(n as nat),
    decreases n,
{
    proof {
        lemma_spacing(n as nat);
    }
    if n < 0x20_0000_0000_0000 {
        1
    } else {
        2 * spacing_of(n / 2)
    }
}

fn nearest_double(n: u64) -> (res: u128)
    ensures
        res == as_double(n as nat),
        res <= n + 2048,
{
    let spacing: u128 = spacing_of(n) as u128;
    proof {
        lemma_spacing(n as nat);
    }
    let steps: u128 = nearest_whole(n as u128, spacing);
    proof {
        let s = spacing as int;
        let below = n as int / s;
        assert(below * s <= n && (below + 1) * s == below * s + s && below >= 0) by (nonlinear_arith)
            requires
                s > 0,
                n >= 0,
                below == n as int / s,
        ;
    }
    steps * spacing
}

fn counted_in(bytes: u64, unit: u64) -> (res: String)
    requires
        unit >= KB,
    ensures
        res@ == in_unit(bytes as nat, unit as nat),
{
    let value: u128 = nearest_double(bytes);
    let hundredths: u128 = nearest_whole(100 * value, unit as u128);
    assert(hundredths <= 100 * value / 1024 + 1) by {
        let num = 100 * value;
        let den = unit as int;
        assert(num / den <= num / 1024) by (nonlinear_arith)
            requires
                num >= 0,
                den >= 1024,
        ;
    }
    let mut out = decimal_text((hundredths / 100) as u64).concat(".");
    out.push((48u8 + (hundredths / 10 % 10) as u8) as char);
    out.push((48u8 + (hundredths % 10) as u8) as char);
    assert(out@ =~= two_decimals(hundredths as nat));
    out
}

/// A size for people to read.
pub fn human_size(bytes: u64) -> (res: String)
    ensures
        res@ == readable_size(bytes as nat),
{
    if bytes >= GB {
        counted_in(bytes, GB).concat(" GB")
    } else if bytes >= MB {
        counted_in(bytes, MB).concat(" MB")
    } else if bytes >= KB {
        counted_in(bytes, KB).concat(" KB")
    } else {
        decimal_text(bytes).concat(" bytes")
    }
}

/// Up to 53 bits a size is a double precision number.
pub proof fn law_small_sizes_are_exact(bytes: nat)
    requires
        bytes < 0x20_0000_0000_0000,
    ensures
        as_double(bytes) == bytes,
{
    assert(double_spacing(bytes) == 1);
    assert(nearest(bytes, 1) == bytes);
}

/// What is shown differs from the size, as a double precision number, by at most half a hundredth
/// of the unit.
pub proof fn law_shown_size_is_close(bytes: nat, unit: nat)
    requires
        unit > 0,
    ensures
        ({
            let hundredths = nearest(100 * as_double(bytes), unit);
            &&& in_unit(bytes, unit) == two_decimals(hundredths)
            &&& 2 * (hundredths * unit - 100 * as_double(bytes)) <= unit
            &&& 2 * (100 * as_double(bytes) - hundredths * unit) <= unit
        }),
{
    let num = 100 * as_double(bytes);
    let below = num / unit;
    let rest = num % unit;
    assert(num == below * unit + rest && 0 <= rest < unit && (below + 1) * unit == below * unit
        + unit) by (nonlinear_arith)
        requires
            unit > 0,
            below == num / unit,
            rest == num % unit,
    ;
}

proof fn lemma_nearest_grows(a: nat, b: nat, den: nat)
    requires
        a <= b,
        den > 0,
    ensures
        nearest(a, den) <= nearest(b, den),
{
    assert(a / den <= b / den && (a / den == b / den ==> a % den <= b % den)) by (nonlinear_arith)
        requires
            a <= b,
            den > 0,
    ;
}

proof fn lemma_nearest_of_multiple(k: nat, den: nat)
    requires
        den > 0,
    ensures
        nearest(k * den, den) == k,
{
    assert((k * den) / den == k && (k * den) % den == 0) by (nonlinear_arith)
        requires
            den > 0,
    ;
}

proof fn lemma_spacing_bounds(n: nat)
    ensures
        n < 0x20_0000_0000_0000 * double_spacing(n),
        double_spacing(n) > 1 ==> 0x10_0000_0000_0000 * double_spacing(n) <= n,
    decreases n,
{
    if n >= 0x20_0000_0000_0000 {
        lemma_spacing_bounds(n / 2);
    }
}

proof fn lemma_spacing_grows(n: nat, m: nat)
    requires
        n <= m,
    ensures
        double_spacing(n) == double_spacing(m) || 2 * double_spacing(n) <= double_spacing(m),
    decreases m,
{
    if n >= 0x20_0000_0000_0000 {
        lemma_spacing_grows(n / 2, m / 2);
    } else if m >= 0x20_0000_0000_0000 {
        lemma_spacing_positive(m / 2);
    }
}

proof fn lemma_double_grows(n: nat, m: nat)
    requires
        n <= m,
    ensures
        as_double(n) <= as_double(m),
{
    let s = double_spacing(n);
    let t = double_spacing(m);
    lemma_spacing_positive(n);
    lemma_spacing_positive(m);
    lemma_spacing_grows(n, m);
    if s == t {
        lemma_nearest_grows(n, m, s);
        let (a, b) = (nearest(n, s), nearest(m, s));
        assert(a * s <= b * s) by (nonlinear_arith)
            requires
                a <= b,
        ;
    } else {
        // A power of two lies between the two numbers, and a double holds it.
        lemma_spacing_bounds(n);
        lemma_spacing_bounds(m);
        lemma_nearest_grows(n, 0x20_0000_0000_0000 * s, s);
        lemma_nearest_of_multiple(0x20_0000_0000_0000, s);
        lemma_nearest_grows(0x10_0000_0000_0000 * t, m, t);
        lemma_nearest_of_multiple(0x10_0000_0000_0000, t);
        let (a, b) = (nearest(n, s), nearest(m, t));
        assert(a * s <= 0x20_0000_0000_0000 * s) by (nonlinear_arith)
            requires
                a <= 0x20_0000_0000_0000,
        ;
        assert(0x10_0000_0000_0000 * t <= b * t) by (nonlinear_arith)
            requires
                0x10_0000_0000_0000 <= b,
        ;
    }
}

/// In one unit, a larger file never shows a smaller size.
pub proof fn law_shown_size_grows(smaller: nat, larger: nat, unit: nat)
    requires
        smaller <= larger,
        unit > 0,
    ensures
        nearest(100 * as_double(smaller), unit) <= nearest(100 * as_double(larger), unit),
{
    lemma_double_grows(smaller, larger);
    lemma_nearest_grows(100 * as_double(smaller), 100 * as_double(larger), unit);
}

/// `text` shows a number of hundredths with two decimals, and a unit behind it.
#[verifier::opaque]
pub open spec fn shows(text: Seq<char>, hundredths: nat, unit: Seq<char>) -> bool {
    exists|whole: Seq<char>, tenths: char, rest: char|
        {
            &&& text == #[trigger] whole.push('.').push(tenths).push(rest) + unit
            &&& numeral(whole)
            &&& '0' <= tenths <= '9'
            &&& '0' <= rest <= '9'
            &&& numeral_value(whole) * 100 + (tenths as int - '0' as int) * 10 + (rest as int
                - '0' as int) == hundredths
        }
}

/// `quotient` is the whole number nearest to `num / den`; of two equally near, the even one.
#[verifier::opaque]
pub open spec fn rounds(quotient: nat, num: nat, den: nat) -> bool {
    &&& 2 * (quotient * den - num) <= den
    &&& 2 * (num - quotient * den) <= den
    &&& 2 * (quotient * den - num) == den || 2 * (num - quotient * den) == den ==> quotient % 2 == 0
}

proof fn lemma_nearest_rounds(num: nat, den: nat)
    requires
        den > 0,
    ensures
        rounds(nearest(num, den), num, den),
{
    reveal(rounds);
    let below = num / den;
    let rest = num % den;
    assert(num == below * den + rest && 0 <= rest < den && (below + 1) * den == below * den + den)
        by (nonlinear_arith)
        requires
            den > 0,
            below == num / den,
            rest == num % den,
    ;
}

proof fn lemma_two_decimals_show(hundredths: nat, unit: Seq<char>)
    ensures
        shows(two_decimals(hundredths) + unit, hundredths, unit),
{
    reveal(shows);
    let whole = decimal(hundredths / 100);
    law_decimal_reads_back(hundredths / 100);
    let tenths = digit(hundredths / 10 % 10);
    let rest = digit(hundredths % 10);
    reveal_strlit(".");
    assert(two_decimals(hundredths) =~= whole.push('.').push(tenths).push(rest));
}

/// A shown size reads back as the size: below 1024 bytes exactly, and above to the nearest
/// hundredth of the largest of the units 1024, 1024² and 1024³ bytes that it reaches.
pub proof fn law_shown_size_reads_back(bytes: nat)
    ensures
        bytes < 1024 ==> exists|digits: Seq<char>|
            {
                &&& readable_size(bytes) == #[trigger] (digits + " bytes"@)
                &&& numeral(digits)
                &&& numeral_value(digits) == bytes
            },
        1024 <= bytes < 1_048_576 ==> exists|h: nat| #[trigger]
            shows(readable_size(bytes), h, " KB"@) && rounds(h, 100 * bytes, 1024),
        1_048_576 <= bytes < 1_073_741_824 ==> exists|h: nat| #[trigger]
            shows(readable_size(bytes), h, " MB"@) && rounds(h, 100 * bytes, 1_048_576),
        1_073_741_824 <= bytes ==> exists|h: nat| #[trigger]
            shows(readable_size(bytes), h, " GB"@) && rounds(
                h,
                100 * as_double(bytes),
                1_073_741_824,
            ),
{
    if bytes < 1024 {
        law_decimal_reads_back(bytes);
        assert(readable_size(bytes) == decimal(bytes) + " bytes"@);
    } else if bytes < 1_048_576 {
        law_small_sizes_are_exact(bytes);
        lemma_unit_shows(bytes, 1024, " KB"@);
        assert(100 * as_double(bytes) == 100 * bytes);
        assert(readable_size(bytes) == in_unit(bytes, 1024) + " KB"@);
    } else if bytes < 1_073_741_824 {
        law_small_sizes_are_exact(bytes);
        lemma_unit_shows(bytes, 1_048_576, " MB"@);
        assert(100 * as_double(bytes) == 100 * bytes);
        assert(readable_size(bytes) == in_unit(bytes, 1_048_576) + " MB"@);
    } else {
        lemma_unit_shows(bytes, 1_073_741_824, " GB"@);
        assert(readable_size(bytes) == in_unit(bytes, 1_073_741_824) + " GB"@);
    }
}

proof fn lemma_unit_shows(bytes: nat, unit: nat, name: Seq<char>)
    requires
        unit > 0,
    ensures
        exists|h: nat| #[trigger]
            shows(in_unit(bytes, unit) + name, h, name) && rounds(h, 100 * as_double(bytes), unit),
{
    let h = nearest(100 * as_double(bytes), unit);
    lemma_nearest_rounds(100 * as_double(bytes), unit);
    lemma_two_decimals_show(h, name);
    assert(shows(in_unit(bytes, unit) + name, h, name));
}

proof fn lemma_spacing_is_power(n: nat) -> (e: nat)
    ensures
        double_spacing(n) == pow2(e),
        n >= 0x20_0000_0000_0000 ==> e > 0,
    decreases n,
{
    if n < 0x20_0000_0000_0000 {
        lemma2_to64();
        0
    } else {
        let e = lemma_spacing_is_power(n / 2);
        lemma_pow2_unfold(e + 1);
        e + 1
    }
}

/// A whole number that a double precision number cannot hold gives way to the nearest one that it
/// can: 53 bits, times a power of two.
pub proof fn law_double_is_nearest(n: nat)
    requires
        n >= 0x20_0000_0000_0000,
    ensures
        exists|k: nat, e: nat|
            {
                &&& as_double(n) == k * #[trigger] pow2(e)
                &&& 0x10_0000_0000_0000 <= k <= 0x20_0000_0000_0000
                &&& #[trigger] rounds(k, n, pow2(e))
            },
{
    let e = lemma_spacing_is_power(n);
    let s = double_spacing(n);
    let k = nearest(n, s);
    lemma_spacing_positive(n / 2);
    lemma_spacing_bounds(n);
    lemma_nearest_rounds(n, s);
    lemma_nearest_grows(n, 0x20_0000_0000_0000 * s, s);
    lemma_nearest_of_multiple(0x20_0000_0000_0000, s);
    lemma_nearest_grows(0x10_0000_0000_0000 * s, n, s);
    lemma_nearest_of_multiple(0x10_0000_0000_0000, s);
    assert(as_double(n) == k * pow2(e));
    assert(rounds(k, n, pow2(e)));
}

} // verus!
