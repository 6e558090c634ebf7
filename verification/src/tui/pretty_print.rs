use vstd::prelude::*;

use crate::text::{decimal, digit_char, push_char, push_decimal, push_str};

verus! {

/// Pretty-prints an amount of bytes as a number of at most four digits followed by a unit
/// suffix, so printed values are never more than 6 chars long.
///
/// For example, `900` is shown as `900B`, `1024` as `1KB`, and `1536` as `1.50KB`. The
/// suffixes used can be `K`, `M`, `G`, `T`, `P`, and `E`.
pub struct PrettyByteDisplayer(pub usize);

/// Pretty-prints an amount of milliseconds, such as for a ping: `<1ms` for zero, `>9999ms`
/// above `9999`, the number followed by `ms` otherwise. Printed values are never more than 7
/// chars long.
pub struct PrettyMillisDisplay(pub u16);

/// The suffix letters of the units of 1024^1 to 1024^6 bytes.
pub open spec fn byte_suffix(index: int) -> char {
    if index == 0 { 'K' } else if index == 1 { 'M' } else if index == 2 { 'G' } else if index == 3 { 'T' } else if index == 4 { 'P' } else { 'E' }
}

/// Divides by 1024 while the quotient exceeds 1000 and a larger unit exists. Gives the unit's
/// index, the value one unit below, the value in the unit and the unit's size in bytes.
pub open spec fn byte_scale(index: nat, prev: nat, value: nat, multiplier: nat) -> (nat, nat, nat, nat)
    decreases 5 - index,
{
    if index < 5 && value > 1000 {
        byte_scale(index + 1, value, value / 1024, multiplier * 1024)
    } else {
        (index, prev, value, multiplier)
    }
}

/// The fractional part of a value in a unit, as shown: two digits below 10, one below 100,
/// none otherwise; nothing when the value is exact.
pub open spec fn byte_fraction(prev: nat, value: nat, multiplier: nat, bytes: nat) -> Seq<char> {
    if value * multiplier == bytes {
        Seq::empty()
    } else if value < 10 {
        let d = (prev % 1024) * 100 / 1024;
        seq!['.', digit_char(d / 10), digit_char(d % 10)]
    } else if value < 100 {
        let d = (prev % 1024) * 10 / 1024;
        seq!['.', digit_char(d)]
    } else {
        Seq::empty()
    }
}

/// The text shown for an amount of bytes.
pub open spec fn pretty_bytes(bytes: nat) -> Seq<char> {
    if bytes < 1000 {
        decimal(bytes) + "B"@
    } else {
        let (index, prev, value, multiplier) = byte_scale(0, bytes, bytes / 1024, 1024);
        decimal(value) + byte_fraction(prev, value, multiplier, bytes) + seq![byte_suffix(index as int), 'B']
    }
}

/// The text shown for an amount of milliseconds.
pub open spec fn pretty_millis(ms: nat) -> Seq<char> {
    if ms == 0 {
        "<1ms"@
    } else if ms > 9999 {
        ">9999ms"@
    } else {
        decimal(ms) + "ms"@
    }
}

fn byte_suffix_exec(index: usize) -> (c: char)
    ensures
        c == byte_suffix(index as int),
{
    if index == 0 { 'K' } else if index == 1 { 'M' } else if index == 2 { 'G' } else if index == 3 { 'T' } else if index == 4 { 'P' } else { 'E' }
}

proof fn lemma_scale_bounds(index: nat, prev: nat, value: nat, multiplier: nat, bytes: nat)
    requires
        index <= 5,
        value == bytes / multiplier,
        multiplier > 0,
        multiplier <= pow1024(index + 1),
    ensures
        ({
            let (i2, p2, v2, m2) = byte_scale(index, prev, value, multiplier);
            &&& index <= i2 <= 5
            &&& v2 == bytes / m2
            &&& m2 > 0
            &&& m2 <= pow1024(i2 + 1)
            &&& (i2 == index ==> p2 == prev && v2 == value && m2 == multiplier)
            &&& (i2 > index ==> p2 / 1024 == v2)
            &&& (i2 < 5 ==> v2 <= 1000)
        }),
    decreases 5 - index,
{
    if index < 5 && value > 1000 {
        assert(value / 1024 == bytes / (multiplier * 1024)) by {
            vstd::arithmetic::div_mod::lemma_div_denominator(bytes as int, multiplier as int, 1024);
        }
        assert(multiplier * 1024 <= pow1024(index + 2)) by (nonlinear_arith)
            requires
                multiplier <= pow1024(index + 1),
                pow1024(index + 2) == pow1024(index + 1) * 1024,
        ;
        lemma_scale_bounds(index + 1, value, value / 1024, multiplier * 1024, bytes);
        assert(byte_scale(index, prev, value, multiplier) == byte_scale(
            index + 1,
            value,
            value / 1024,
            multiplier * 1024,
        ));
    } else {
        assert(byte_scale(index, prev, value, multiplier) == (index, prev, value, multiplier));
    }
}

/// 1024 to the given power.
pub open spec fn pow1024(n: nat) -> nat
    decreases n,
{
    if n == 0 { 1 } else { 1024 * pow1024((n - 1) as nat) }
}

/// Scaling a whole number `n` (at most 1000) of units of 1024^(m + 1) bytes, counted from the
/// unit `index` with `value` units of 1024^(index + 1), stops at that unit with `n` units, when
/// it is among the six units.
proof fn lemma_scale_whole_units(index: nat, prev: nat, n: nat, m: nat)
    requires
        1 <= n <= 1000,
        index + m <= 5,
    ensures
        ({
            let (i2, p2, v2, m2) = byte_scale(index, prev, n * pow1024(m), pow1024(index + 1));
            i2 == index + m && v2 == n && m2 == pow1024(index + m + 1)
        }),
    decreases m,
{
    if m == 0 {
        assert(pow1024(0) == 1);
        assert(n * pow1024(0) == n) by (nonlinear_arith)
            requires
                pow1024(0) == 1,
        ;
    } else {
        lemma_pow1024_positive((m - 1) as nat);
        let value = n * pow1024(m);
        let smaller = n * pow1024((m - 1) as nat);
        assert(value == smaller * 1024) by (nonlinear_arith)
            requires
                value == n * pow1024(m),
                smaller == n * pow1024((m - 1) as nat),
                pow1024(m) == 1024 * pow1024((m - 1) as nat),
        ;
        assert(smaller >= 1) by (nonlinear_arith)
            requires
                n >= 1,
                pow1024((m - 1) as nat) >= 1,
                smaller == n * pow1024((m - 1) as nat),
        {
        }
        assert(value / 1024 == smaller);
        assert(value > 1000);
        assert(pow1024(index + 1) * 1024 == pow1024(index + 2));
        lemma_scale_whole_units(index + 1, value, n, (m - 1) as nat);
    }
}

/// A power of 1024 is at least one.
proof fn lemma_pow1024_positive(n: nat)
    ensures
        pow1024(n) >= 1,
    decreases n,
{
    if n > 0 {
        lemma_pow1024_positive((n - 1) as nat);
    }
}

/// A whole number `n` of units, from one to a thousand, of 1024^k bytes (k from 1 to 6) is
/// shown as `n` followed by the unit's letter, K, M, G, T, P or E in turn, and `B`.
pub proof fn lemma_whole_units_shown(n: nat, k: nat)
    requires
        1 <= n <= 1000,
        1 <= k <= 6,
    ensures
        pretty_bytes(n * pow1024(k)) == decimal(n) + seq!["KMGTPE"@[k - 1], 'B'],
{
    reveal_strlit("KMGTPE");
    lemma_pow1024_positive((k - 1) as nat);
    let bytes = n * pow1024(k);
    let below = n * pow1024((k - 1) as nat);
    assert(bytes == below * 1024) by (nonlinear_arith)
        requires
            bytes == n * pow1024(k),
            below == n * pow1024((k - 1) as nat),
            pow1024(k) == 1024 * pow1024((k - 1) as nat),
    ;
    assert(below >= 1) by (nonlinear_arith)
        requires
            n >= 1,
            pow1024((k - 1) as nat) >= 1,
            below == n * pow1024((k - 1) as nat),
    {
    }
    assert(bytes / 1024 == below);
    assert(bytes >= 1000);
    assert(pow1024(1) == 1024) by {
        reveal_with_fuel(pow1024, 2);
    }
    lemma_scale_whole_units(0, bytes, n, (k - 1) as nat);
    let (index, prev, value, multiplier) = byte_scale(0, bytes, bytes / 1024, 1024);
    assert(value * multiplier == bytes) by (nonlinear_arith)
        requires
            value == n,
            multiplier == pow1024(k),
            bytes == n * pow1024(k),
    ;
    assert(byte_fraction(prev, value, multiplier, bytes) =~= Seq::<char>::empty());
    assert(byte_suffix(index as int) == "KMGTPE"@[k - 1]);
    assert(decimal(value) + byte_fraction(prev, value, multiplier, bytes) + seq![byte_suffix(index as int), 'B']
        =~= decimal(n) + seq!["KMGTPE"@[k - 1], 'B']);
}

impl PrettyByteDisplayer {
    /// The pretty-printed text.
    pub fn to_string(&self) -> (s: String)
        ensures
            s@ == pretty_bytes(self.0 as nat),
    {
        let value_b = self.0 as u128;
        let mut s = String::new();
        if value_b < 1000 {
            push_decimal(&mut s, value_b);
            push_str(&mut s, "B");
            return s;
        }

        let mut suffix_index: usize = 0;
        let mut value_prev: u128 = value_b;
        let mut value: u128 = value_b / 1024;
        let mut multiplier: u128 = 1024;
        assert(pow1024(1) == 1024) by {
            reveal_with_fuel(pow1024, 2);
        }
        proof {
            lemma_scale_bounds(0, value_b as nat, value as nat, multiplier as nat, value_b as nat);
        }

        while suffix_index < 5 && value > 1000
            invariant
                suffix_index <= 5,
                value == value_b / multiplier,
                multiplier > 0,
                multiplier <= pow1024((suffix_index + 1) as nat),
                value_b <= usize::MAX,
                byte_scale(suffix_index as nat, value_prev as nat, value as nat, multiplier as nat) == byte_scale(
                    0,
                    value_b as nat,
                    (value_b / 1024) as nat,
                    1024,
                ),
            decreases 5 - suffix_index,
        {
            proof {
                lemma_pow1024_bound((suffix_index + 2) as nat);
                lemma_pow1024_small((suffix_index + 2) as nat);
                assert(multiplier * 1024 <= pow1024((suffix_index + 2) as nat)) by (nonlinear_arith)
                    requires
                        multiplier <= pow1024((suffix_index + 1) as nat),
                        pow1024((suffix_index + 2) as nat) == pow1024((suffix_index + 1) as nat) * 1024,
                ;
                assert((value as int) / 1024 == (value_b as int) / ((multiplier as int) * 1024)) by {
                    vstd::arithmetic::div_mod::lemma_div_denominator(value_b as int, multiplier as int, 1024);
                }
            }
            suffix_index = suffix_index + 1;
            value_prev = value;
            value = value / 1024;
            multiplier = multiplier * 1024;
        }
        let ghost scaled = byte_scale(0, value_b as nat, (value_b / 1024) as nat, 1024);
        assert(scaled == (suffix_index as nat, value_prev as nat, value as nat, multiplier as nat));

        push_decimal(&mut s, value);
        proof {
            assert(value * multiplier <= value_b) by (nonlinear_arith)
                requires
                    value == value_b / multiplier,
                    multiplier > 0,
            ;
        }
        let ghost before_fraction = s@;
        if value * multiplier != value_b {
            if value < 10 {
                let decimal_digits = (value_prev % 1024) * 100 / 1024;
                push_char(&mut s, '.');
                push_char(&mut s, digit_char_for(decimal_digits / 10));
                push_char(&mut s, digit_char_for(decimal_digits % 10));
            } else if value < 100 {
                let decimal_digits = (value_prev % 1024) * 10 / 1024;
                push_char(&mut s, '.');
                push_char(&mut s, digit_char_for(decimal_digits));
            }
        }
        assert(s@ == before_fraction + byte_fraction(value_prev as nat, value as nat, multiplier as nat, value_b as nat));

        push_char(&mut s, byte_suffix_exec(suffix_index));
        push_char(&mut s, 'B');
        assert(s@ =~= pretty_bytes(self.0 as nat));
        s
    }
}

proof fn lemma_pow1024_small(n: nat)
    requires
        n <= 6,
    ensures
        pow1024(n) <= 1152921504606846976,
{
    assert(pow1024(6) == 1152921504606846976) by {
        reveal_with_fuel(pow1024, 7);
    }
    lemma_pow1024_mono(n, 6);
}

proof fn lemma_pow1024_mono(a: nat, b: nat)
    requires
        a <= b,
    ensures
        pow1024(a) <= pow1024(b),
    decreases b,
{
    if a < b {
        lemma_pow1024_mono(a, (b - 1) as nat);
        lemma_pow1024_bound(b);
    }
}

proof fn lemma_pow1024_bound(n: nat)
    ensures
        pow1024(n) > 0,
        n >= 1 ==> pow1024(n) == pow1024((n - 1) as nat) * 1024,
    decreases n,
{
    if n > 0 {
        lemma_pow1024_bound((n - 1) as nat);
    }
}

fn digit_char_for(d: u128) -> (c: char)
    requires
        d < 10,
    ensures
        c == digit_char(d as nat),
{
    if d == 0 { '0' } else if d == 1 { '1' } else if d == 2 { '2' } else if d == 3 { '3' } else if d == 4 { '4' }
    else if d == 5 { '5' } else if d == 6 { '6' } else if d == 7 { '7' } else if d == 8 { '8' } else { '9' }
}

impl PrettyMillisDisplay {
    /// The pretty-printed text.
    pub fn to_string(&self) -> (s: String)
        ensures
            s@ == pretty_millis(self.0 as nat),
    {
        let mut s = String::new();
        if self.0 == 0 {
            push_str(&mut s, "<1ms");
        } else if self.0 > 9999 {
            push_str(&mut s, ">9999ms");
        } else {
            push_decimal(&mut s, self.0 as u128);
            push_str(&mut s, "ms");
        }
        assert(s@ =~= pretty_millis(self.0 as nat));
        s
    }
}

} // verus!
