//! Rendering a quantity for display.
use crate::exponents::Exponents;
use crate::unit::Unit;
use vstd::prelude::*;

verus! {

/// The character that stands for one decimal digit.
pub open spec fn digit(d: int) -> char
    recommends
        0 <= d <= 9,
{
    if d == 0 {
        '0'
    } else if d == 1 {
        '1'
    } else if d == 2 {
        '2'
    } else if d == 3 {
        '3'
    } else if d == 4 {
        '4'
    } else if d == 5 {
        '5'
    } else if d == 6 {
        '6'
    } else if d == 7 {
        '7'
    } else if d == 8 {
        '8'
    } else {
        '9'
    }
}

/// The decimal digits of a natural number, most significant first and
/// without leading zeros; zero is the single digit `0`.
pub open spec fn digits(n: nat) -> Seq<char>
    decreases n,
{
    if n < 10 {
        seq![digit(n as int)]
    } else {
        digits(n / 10).push(digit((n % 10) as int))
    }
}

/// The decimal numeral of an integer: a minus sign if it is negative, then
/// the digits of its magnitude.
pub open spec fn decimal(n: int) -> Seq<char> {
    if n < 0 {
        seq!['-'] + digits((-n) as nat)
    } else {
        digits(n as nat)
    }
}

/// The display form of a quantity: its magnitude as already rendered, then
/// the exponent of each base dimension over the symbols `m`, `kg` and `s`,
/// as in `1.0 m^1 kg^0 s^-1`.
pub open spec fn rendering(magnitude: Seq<char>, exponents: Exponents) -> Seq<char> {
    magnitude + seq![' ', 'm', '^'] + decimal(exponents.length) + seq![' ', 'k', 'g', '^']
        + decimal(exponents.mass) + seq![' ', 's', '^'] + decimal(exponents.time)
}

/// One decimal digit as a string of one character.
fn digit_text(d: u64) -> (text: &'static str)
    requires
        d < 10,
    ensures
        text@ == seq![digit(d as int)],
{
    let text = match d {
        0 => "0",
        1 => "1",
        2 => "2",
        3 => "3",
        4 => "4",
        5 => "5",
        6 => "6",
        7 => "7",
        8 => "8",
        _ => "9",
    };
    proof {
        reveal_strlit("0");
        reveal_strlit("1");
        reveal_strlit("2");
        reveal_strlit("3");
        reveal_strlit("4");
        reveal_strlit("5");
        reveal_strlit("6");
        reveal_strlit("7");
        reveal_strlit("8");
        reveal_strlit("9");
        assert(text@ =~= seq![digit(d as int)]);
    }
    text
}

/// Appends the decimal digits of `n` to `out`, most significant first.
fn push_digits(out: &mut String, n: u64)
    ensures
        final(out)@ == old(out)@ + digits(n as nat),
    decreases n,
{
    if n >= 10 {
        push_digits(out, n / 10);
    }
    out.append(digit_text(n % 10));
    proof {
        assert(out@ =~= old(out)@ + digits(n as nat));
    }
}

/// The decimal numeral of `n`, as `n.to_string()` writes it.
pub fn decimal_string(n: i64) -> (text: String)
    ensures
        text@ == decimal(n as int),
{
    if n < 0 {
        let mut text = String::from_str("-");
        let magnitude: u64 = (-(n + 1)) as u64 + 1;
        push_digits(&mut text, magnitude);
        proof {
            reveal_strlit("-");
            assert(text@ =~= decimal(n as int));
        }
        text
    } else {
        let mut text = String::new();
        push_digits(&mut text, n as u64);
        proof {
            assert(text@ =~= decimal(n as int));
        }
        text
    }
}

impl Unit {
    /// Renders a quantity of this dimension whose magnitude has already been
    /// rendered as `magnitude`: the magnitude, then ` m^`, ` kg^` and ` s^`,
    /// each followed by the exponent of its base dimension.
    pub fn format_units(self, magnitude: &str) -> (text: String)
        ensures
            text@ == rendering(magnitude@, self@),
    {
        let mut text = String::from_str(magnitude);
        text.append(" m^");
        text.append(decimal_string(self.length).as_str());
        text.append(" kg^");
        text.append(decimal_string(self.mass).as_str());
        text.append(" s^");
        text.append(decimal_string(self.time).as_str());
        proof {
            reveal_strlit(" m^");
            reveal_strlit(" kg^");
            reveal_strlit(" s^");
            assert(" m^"@ =~= seq![' ', 'm', '^']);
            assert(" kg^"@ =~= seq![' ', 'k', 'g', '^']);
            assert(" s^"@ =~= seq![' ', 's', '^']);
            assert(text@ =~= rendering(magnitude@, self@));
        }
        text
    }
}

} // verus!
