//! Display text: decimal numerals, joined lists and concatenation.

use vstd::prelude::*;
use vstd::string::*;

verus! {

/// The character that displays the decimal digit `d`.
pub open spec fn digit_char(d: int) -> char {
    if d == 0 {
        '0'
    } else if d == 1 {
        '1'
    } else if d == 2 {
        '2'
    } else if d == 3 {
        '3'
    } else if d == 4 {
        '4'
    } else if d == 5 {
        '5'
    } else if d == 6 {
        '6'
    } else if d == 7 {
        '7'
    } else if d == 8 {
        '8'
    } else {
        '9'
    }
}

/// The decimal numeral of a natural number, most significant digit first,
/// without leading zeros.
pub open spec fn decimal_nat(n: nat) -> Seq<char>
    decreases n,
{
    if n < 10 {
        seq![digit_char(n as int)]
    } else {
        decimal_nat(n / 10).push(digit_char((n % 10) as int))
    }
}

/// The decimal numeral of an integer: a minus sign before the numeral of
/// the magnitude when the integer is negative.
pub open spec fn decimal(n: int) -> Seq<char> {
    if n < 0 {
        seq!['-'] + decimal_nat((-n) as nat)
    } else {
        decimal_nat(n as nat)
    }
}

fn digit_str(d: u8) -> (s: &'static str)
    requires
        d < 10,
    ensures
        s@ == seq![digit_char(d as int)],
{
    proof {
        reveal_strlit("0");
        reveal_strlit("1");
        reveal_strlit("2");
        reveal_strlit("3");
        reveal_strlit("4");
        reveal_strlit("5");
        reveal_strlit("6");
        reveal_strlit("7");
        reveal_strlit("8");
        reveal_strlit("9");
    }
    let s: &'static str = if d == 0 {
        "0"
    } else if d == 1 {
        "1"
    } else if d == 2 {
        "2"
    } else if d == 3 {
        "3"
    } else if d == 4 {
        "4"
    } else if d == 5 {
        "5"
    } else if d == 6 {
        "6"
    } else if d == 7 {
        "7"
    } else if d == 8 {
        "8"
    } else {
        "9"
    };
    assert(s@ =~= seq![digit_char(d as int)]);
    s
}

fn push_decimal_nat(out: &mut String, n: u128)
    ensures
        final(out)@ == old(out)@ + decimal_nat(n as nat),
    decreases n,
{
    if n >= 10 {
        push_decimal_nat(out, n / 10);
    }
    let d: u8 = (n % 10) as u8;
    out.append(digit_str(d));
    assert(out@ =~= old(out)@ + decimal_nat(n as nat));
}

/// The decimal numeral of `n`.
pub fn format_int(n: i128) -> (s: String)
    ensures
        s@ == decimal(n as int),
{
    let mut out = String::new();
    if n < 0 {
        proof {
            reveal_strlit("-");
        }
        out.append("-");
        let magnitude: u128 = ((-(n + 1)) as u128) + 1;
        push_decimal_nat(&mut out, magnitude);
        assert(out@ =~= decimal(n as int));
    } else {
        push_decimal_nat(&mut out, n as u128);
        assert(out@ =~= decimal(n as int));
    }
    out
}

/// The power of ten with exponent `k`.
pub open spec fn pow10(k: nat) -> nat
    decreases k,
{
    if k == 0 {
        1
    } else {
        10 * pow10((k - 1) as nat)
    }
}

/// The last `width` decimal digits of `n`, with leading zeros.
pub open spec fn padded(n: nat, width: nat) -> Seq<char>
    decreases width,
{
    if width == 0 {
        Seq::empty()
    } else {
        padded(n / 10, (width - 1) as nat).push(digit_char((n % 10) as int))
    }
}

/// The numeral of a number in two parts is the numeral of the high part
/// followed by the low part in full width.
pub proof fn lemma_decimal_of_parts(high: nat, low: nat, width: nat)
    requires
        high > 0,
        low < pow10(width),
    ensures
        decimal_nat(high * pow10(width) + low) == decimal_nat(high) + padded(low, width),
    decreases width,
{
    if width == 0 {
        assert(high * pow10(0) + low == high) by (nonlinear_arith)
            requires
                pow10(0) == 1,
                low == 0,
        ;
        assert(decimal_nat(high) + padded(low, 0) =~= decimal_nat(high));
    } else {
        let unit = pow10((width - 1) as nat);
        let n = high * pow10(width) + low;
        lemma_pow10_positive((width - 1) as nat);
        assert(n == 10 * (high * unit + low / 10) + low % 10 && n >= 10) by (nonlinear_arith)
            requires
                n == high * (10 * unit) + low,
                high >= 1,
                unit >= 1,
        ;
        assert(n / 10 == high * unit + low / 10 && n % 10 == low % 10) by (nonlinear_arith)
            requires
                n == 10 * (high * unit + low / 10) + low % 10,
                0 <= low % 10 < 10,
        ;
        assert(low / 10 < unit) by (nonlinear_arith)
            requires
                low < 10 * unit,
        ;
        lemma_decimal_of_parts(high, low / 10, (width - 1) as nat);
        assert(decimal_nat(n) =~= decimal_nat(high) + padded(low, width));
    }
}

proof fn lemma_pow10_positive(k: nat)
    ensures
        pow10(k) >= 1,
    decreases k,
{
    if k > 0 {
        lemma_pow10_positive((k - 1) as nat);
    }
}

/// The unit of the high part of a wide number: ten to the thirtieth.
pub const LIMB: u128 = 1_000_000_000_000_000_000_000_000_000_000;

/// The number that the two parts of a wide number stand for.
pub open spec fn wide(high: int, low: int) -> int {
    high * LIMB + low
}

proof fn lemma_limb_is_a_power()
    ensures
        LIMB == pow10(30),
{
    reveal_with_fuel(pow10, 31);
}

fn push_padded(out: &mut String, n: u128, width: u32)
    ensures
        final(out)@ == old(out)@ + padded(n as nat, width as nat),
    decreases width,
{
    if width > 0 {
        push_padded(out, n / 10, width - 1);
        let d: u8 = (n % 10) as u8;
        out.append(digit_str(d));
    }
    assert(out@ =~= old(out)@ + padded(n as nat, width as nat));
}

fn push_wide_nat(out: &mut String, high: u128, low: u128)
    requires
        low < LIMB,
    ensures
        final(out)@ == old(out)@ + decimal_nat((high * LIMB + low) as nat),
{
    if high == 0 {
        push_decimal_nat(out, low);
    } else {
        push_decimal_nat(out, high);
        push_padded(out, low, 30);
        proof {
            lemma_limb_is_a_power();
            lemma_decimal_of_parts(high as nat, low as nat, 30);
            assert(out@ =~= old(out)@ + decimal_nat((high * LIMB + low) as nat));
        }
    }
}

/// The decimal numeral of the wide number `high * 10^30 + low`.
pub fn format_wide(high: i128, low: u128) -> (s: String)
    requires
        low < LIMB,
        high > i128::MIN,
    ensures
        s@ == decimal(wide(high as int, low as int)),
{
    let mut out = String::new();
    if high >= 0 {
        assert(wide(high as int, low as int) >= 0) by (nonlinear_arith)
            requires
                high >= 0,
                low >= 0,
                wide(high as int, low as int) == high * LIMB + low,
                LIMB > 0,
        ;
        push_wide_nat(&mut out, high as u128, low);
        assert(out@ =~= decimal(wide(high as int, low as int)));
    } else {
        let up: u128 = (-high) as u128;
        proof {
            reveal_strlit("-");
        }
        out.append("-");
        assert(wide(high as int, low as int) < 0 && -wide(high as int, low as int) == up * LIMB
            - low && up * LIMB - low == (up - 1) * LIMB + (LIMB - low)) by (nonlinear_arith)
            requires
                up == -high,
                up >= 1,
                0 <= low < LIMB,
                wide(high as int, low as int) == high * LIMB + low,
        ;
        if low == 0 {
            push_wide_nat(&mut out, up, 0);
        } else {
            push_wide_nat(&mut out, up - 1, LIMB - low);
        }
        assert(out@ =~= decimal(wide(high as int, low as int)));
    }
    out
}

/// The items of a list written one after the other with `sep` between
/// neighbours.
pub open spec fn join(items: Seq<Seq<char>>, sep: Seq<char>) -> Seq<char>
    decreases items.len(),
{
    if items.len() == 0 {
        Seq::empty()
    } else if items.len() == 1 {
        items[0]
    } else {
        join(items.drop_last(), sep) + sep + items.last()
    }
}

/// Joins `items` with `sep` between neighbours.
pub fn join_strings(items: &Vec<String>, sep: &str) -> (s: String)
    ensures
        s@ == join(items.deep_view(), sep@),
{
    let ghost all = items.deep_view();
    let mut out = String::new();
    let mut i: usize = 0;
    while i < items.len()
        invariant
            i <= items.len(),
            all == items.deep_view(),
            out@ == join(all.take(i as int), sep@),
        decreases items.len() - i,
    {
        if i > 0 {
            out.append(sep);
        }
        out.append(items[i].as_str());
        proof {
            let grown = all.take(i as int + 1);
            assert(grown.drop_last() =~= all.take(i as int));
            assert(grown.last() == items[i as int]@);
            assert(out@ =~= join(grown, sep@));
        }
        i = i + 1;
    }
    assert(all.take(i as int) =~= all);
    out
}

/// `first` followed by `second`.
pub fn append_str(first: &str, second: &str) -> (s: String)
    ensures
        s@ == first@ + second@,
{
    let mut out = String::from_str(first);
    out.append(second);
    out
}

} // verus!
