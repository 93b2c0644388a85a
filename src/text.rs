//! Decimal rendering of integers and fixed-point quotients.

use vstd::prelude::*;

verus! {

/// The ASCII digit for a value below 10.
pub open spec fn digit_char(d: nat) -> char {
    ((48 + d) as u8) as char
}

/// Decimal digits of a natural number, without leading zeros.
pub open spec fn decimal_of(n: nat) -> Seq<char>
    decreases n,
{
    if n < 10 {
        seq![digit_char(n)]
    } else {
        decimal_of(n / 10) + seq![digit_char(n % 10)]
    }
}

/// `num / den` rounded to the nearest integer, ties to the even neighbour.
pub open spec fn round_half_even(num: nat, den: nat) -> nat
    recommends
        den > 0,
{
    let q = num / den;
    let r = num % den;
    if 2 * r > den {
        q + 1
    } else if 2 * r < den {
        q
    } else if q % 2 == 0 {
        q
    } else {
        q + 1
    }
}

/// `num / den` with `places` decimals (1 or 2), rounded half to even.
pub open spec fn fixed_of(num: nat, den: nat, places: nat) -> Seq<char> {
    let scale: nat = if places == 1 { 10 } else { 100 };
    let v = round_half_even(num * scale, den);
    if places == 1 {
        decimal_of(v / 10) + seq!['.'] + seq![digit_char(v % 10)]
    } else {
        decimal_of(v / 100) + seq!['.'] + seq![digit_char((v % 100) / 10)] + seq![digit_char(v % 10)]
    }
}

/// The one-character text of a digit.
fn digit_str(d: u64) -> (r: &'static str)
    requires
        d < 10,
    ensures
        r@ == seq![digit_char(d as nat)],
{
    proof {
        reveal_strlit("0");
        reveal_strlit("1");
        reveal_strlit("2");
        reveal_strlit("3");
        reveal_strlit("4");
        reveal_strlit("5");
        reveal_strlit("6");
        reveal_strlit("7");
        reveal_strlit("8");
        reveal_strlit("9");
    }
    let r = match d {
        0 => "0",
        1 => "1",
        2 => "2",
        3 => "3",
        4 => "4",
        5 => "5",
        6 => "6",
        7 => "7",
        8 => "8",
        _ => "9",
    };
    assert(r@ =~= seq![digit_char(d as nat)]);
    r
}

/// Appends the decimal digits of `n` to `out`.
pub fn push_decimal(out: &mut String, n: u128)
    ensures
        final(out)@ == old(out)@ + decimal_of(n as nat),
    decreases n,
{
    if n >= 10 {
        push_decimal(out, n / 10);
        out.append(digit_str((n % 10) as u64));
        assert(old(out)@ + decimal_of((n / 10) as nat) + seq![digit_char((n % 10) as nat)]
            =~= old(out)@ + decimal_of(n as nat));
    } else {
        out.append(digit_str(n as u64));
    }
}

/// The decimal text of an integer.
pub fn decimal_string(n: u128) -> (r: String)
    ensures
        r@ == decimal_of(n as nat),
{
    let mut s = String::new();
    push_decimal(&mut s, n);
    assert(Seq::<char>::empty() + decimal_of(n as nat) =~= decimal_of(n as nat));
    s
}

/// Appends `num / den` with one or two decimals, rounded half to even.
pub fn push_fixed(out: &mut String, num: u128, den: u64, places: u64)
    requires
        den > 0,
        num < 0x1_0000_0000_0000_0000_0000_0000,
        places == 1 || places == 2,
    ensures
        final(out)@ == old(out)@ + fixed_of(num as nat, den as nat, places as nat),
{
    let scale: u128 = if places == 1 { 10 } else { 100 };
    let scaled: u128 = num * scale;
    let q: u128 = scaled / den as u128;
    let r: u128 = scaled % den as u128;
    let v: u128 = if 2 * r > den as u128 {
        q + 1
    } else if 2 * r < den as u128 {
        q
    } else if q % 2 == 0 {
        q
    } else {
        q + 1
    };
    assert(v == round_half_even((num * scale) as nat, den as nat));
    let ghost before = out@;
    if places == 1 {
        push_decimal(out, v / 10);
        out.append(".");
        out.append(digit_str((v % 10) as u64));
        proof {
            reveal_strlit(".");
        }
        assert(out@ =~= before + fixed_of(num as nat, den as nat, places as nat));
    } else {
        push_decimal(out, v / 100);
        out.append(".");
        out.append(digit_str(((v % 100) / 10) as u64));
        out.append(digit_str((v % 10) as u64));
        proof {
            reveal_strlit(".");
        }
        assert(out@ =~= before + fixed_of(num as nat, den as nat, places as nat));
    }
}

} // verus!
