use vstd::prelude::*;
use vstd::string::StringExecFns;
use crate::fixed::magnitude;
use crate::ohlcv::{Price, ONE};
use crate::price_source::PriceSource;

verus! {

/// The character of a decimal digit.
pub open spec fn digit(d: nat) -> char {
    if d == 0 {
        '0'
    } else if d == 1 {
        '1'
    } else if d == 2 {
        '2'
    } else if d == 3 {
        '3'
    } else if d == 4 {
        '4'
    } else if d == 5 {
        '5'
    } else if d == 6 {
        '6'
    } else if d == 7 {
        '7'
    } else if d == 8 {
        '8'
    } else {
        '9'
    }
}

/// The decimal digits of `n`, most significant first, without leading
/// zeros.
pub open spec fn decimal(n: nat) -> Seq<char>
    decreases n,
{
    if n < 10 {
        seq![digit(n)]
    } else {
        decimal(n / 10).push(digit(n % 10))
    }
}

/// The first `places` decimal places of the fraction `frac / ONE`, cut
/// short where the fraction ends.
pub open spec fn fraction(frac: nat, places: nat) -> Seq<char>
    decreases places,
{
    if frac == 0 || places == 0 {
        Seq::empty()
    } else {
        seq![digit((frac * 10 / (ONE as nat)) as nat)] + fraction(
            (frac * 10 % (ONE as nat)) as nat,
            (places - 1) as nat,
        )
    }
}

/// A price in decimal: a minus sign where it is negative, its whole part,
/// and, where it has a fraction, a point and up to 48 decimal places.
pub open spec fn price_text(price: Price) -> Seq<char> {
    let m: nat = if price < 0 {
        (-price) as nat
    } else {
        price as nat
    };
    let sign = if price < 0 {
        "-"@
    } else {
        Seq::empty()
    };
    let places = if m % (ONE as nat) == 0 {
        Seq::empty()
    } else {
        "."@ + fraction(m % (ONE as nat), 48)
    };
    sign + decimal(m / (ONE as nat)) + places
}

/// The text `label(length, source, multiplier)`.
pub open spec fn labelled_text_with(
    label: Seq<char>,
    length: nat,
    source: PriceSource,
    multiplier: Price,
) -> Seq<char> {
    label + "("@ + decimal(length) + ", "@ + source.name_of() + ", "@ + price_text(multiplier)
        + ")"@
}

/// The text `label(length, source)`.
pub open spec fn labelled_text(label: Seq<char>, length: nat, source: PriceSource) -> Seq<char> {
    label + "("@ + decimal(length) + ", "@ + source.name_of() + ")"@
}

fn digit_str(d: usize) -> (text: &'static str)
    requires
        d < 10,
    ensures
        text@ == seq![digit(d as nat)],
{
    proof {
        reveal_strlit("0");
        reveal_strlit("1");
        reveal_strlit("2");
        reveal_strlit("3");
        reveal_strlit("4");
        reveal_strlit("5");
        reveal_strlit("6");
        reveal_strlit("7");
        reveal_strlit("8");
        reveal_strlit("9");
    }
    let text: &'static str = if d == 0 {
        "0"
    } else if d == 1 {
        "1"
    } else if d == 2 {
        "2"
    } else if d == 3 {
        "3"
    } else if d == 4 {
        "4"
    } else if d == 5 {
        "5"
    } else if d == 6 {
        "6"
    } else if d == 7 {
        "7"
    } else if d == 8 {
        "8"
    } else {
        "9"
    };
    assert(text@ =~= seq![digit(d as nat)]);
    text
}

/// Writes `n` in decimal.
pub fn decimal_string(n: u128) -> (text: String)
    ensures
        text@ == decimal(n as nat),
    decreases n,
{
    if n < 10 {
        String::from_str(digit_str(n as usize))
    } else {
        let head: String = decimal_string(n / 10);
        let text: String = head.concat(digit_str((n % 10) as usize));
        text
    }
}

fn fraction_string(frac: u128, places: u32) -> (text: String)
    requires
        frac < ONE,
    ensures
        text@ == fraction(frac as nat, places as nat),
    decreases places,
{
    if frac == 0 || places == 0 {
        String::new()
    } else {
        let scaled: u128 = frac * 10;
        let rest: String = fraction_string(scaled % 0x1_0000_0000_0000, places - 1);
        String::from_str(digit_str((scaled / 0x1_0000_0000_0000) as usize)).concat(rest.as_str())
    }
}

/// Writes a price in decimal.
pub fn price_string(price: Price) -> (text: String)
    requires
        price > Price::MIN,
    ensures
        text@ == price_text(price),
{
    let m: u128 = magnitude(price);
    let whole: String = decimal_string(m / 0x1_0000_0000_0000);
    let frac: u128 = m % 0x1_0000_0000_0000;
    let sign: &'static str = if price < 0 {
        "-"
    } else {
        ""
    };
    proof {
        reveal_strlit("");
        assert(""@ =~= Seq::<char>::empty());
    }
    let start: String = String::from_str(sign).concat(whole.as_str());
    if frac == 0 {
        assert(start@ =~= price_text(price));
        start
    } else {
        let places: String = fraction_string(frac, 48);
        let text: String = start.concat(".").concat(places.as_str());
        assert(text@ =~= price_text(price));
        text
    }
}

/// Writes `label(length, source, multiplier)`.
pub fn labelled_with(label: &str, length: usize, source: PriceSource, multiplier: Price) -> (text:
    String)
    requires
        multiplier > Price::MIN,
    ensures
        text@ == labelled_text_with(label@, length as nat, source, multiplier),
{
    let digits: String = decimal_string(length as u128);
    let factor: String = price_string(multiplier);
    String::from_str(label).concat("(").concat(digits.as_str()).concat(", ").concat(
        source.name(),
    ).concat(", ").concat(factor.as_str()).concat(")")
}

/// Writes `label(length, source)`.
pub fn labelled(label: &str, length: usize, source: PriceSource) -> (text: String)
    ensures
        text@ == labelled_text(label@, length as nat, source),
{
    let digits: String = decimal_string(length as u128);
    String::from_str(label).concat("(").concat(digits.as_str()).concat(", ").concat(
        source.name(),
    ).concat(")")
}

} // verus!
