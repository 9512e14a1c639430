//! Exact fractions and the decimal text that stands for them in a document.

use vstd::arithmetic::div_mod::lemma_div_by_multiple;
use vstd::arithmetic::div_mod::lemma_div_pos_is_pos;
use vstd::arithmetic::div_mod::lemma_fundamental_div_mod;
use vstd::arithmetic::div_mod::lemma_mod_bound;
use vstd::arithmetic::div_mod::lemma_mod_multiples_basic;
use vstd::prelude::*;

verus! {

/// The number of units to the whole when a ratio is rounded for writing:
/// ten to the sixth, for six digits after the decimal point.
pub const SCALE: u128 = 1_000_000;

/// The weight of the first digit after the decimal point, in units of
/// `1 / SCALE`.
pub const FIRST_DIVISOR: u32 = 100_000;

/// The number a [`Fraction`] stands for: `numerator / denominator`.
pub struct Ratio {
    pub numerator: int,
    pub denominator: int,
}

/// The character that writes the digit `d`.
pub open spec fn digit(d: int) -> char {
    if d == 0 {
        '0'
    } else if d == 1 {
        '1'
    } else if d == 2 {
        '2'
    } else if d == 3 {
        '3'
    } else if d == 4 {
        '4'
    } else if d == 5 {
        '5'
    } else if d == 6 {
        '6'
    } else if d == 7 {
        '7'
    } else if d == 8 {
        '8'
    } else {
        '9'
    }
}

/// The decimal digits of `value`, most significant first, without leading
/// zeros; zero is written `0`.
pub open spec fn natural_digits(value: nat) -> Seq<char>
    decreases value,
{
    if value < 10 {
        seq![digit(value as int)]
    } else {
        natural_digits(value / 10).push(digit((value % 10) as int))
    }
}

/// The digits after the decimal point of `rest / (10 * divisor)`, where
/// `divisor` is a power of ten: one digit per power, down to the last one
/// that is not zero.
pub open spec fn fraction_digits(rest: nat, divisor: nat) -> Seq<char>
    decreases divisor,
{
    if rest == 0 || divisor == 0 {
        Seq::empty()
    } else {
        seq![digit((rest / divisor) as int)] + fraction_digits(rest % divisor, divisor / 10)
    }
}

impl Ratio {
    /// The whole number `value` as a ratio over one.
    pub open spec fn whole(value: int) -> Ratio {
        Ratio { numerator: value, denominator: 1 }
    }

    /// Whether the ratio is the whole number `whole`.
    pub open spec fn is_whole(self, whole: int) -> bool {
        self.numerator == whole * self.denominator
    }

    /// The numerator without its sign.
    pub open spec fn magnitude(self) -> int {
        if self.numerator < 0 {
            -self.numerator
        } else {
            self.numerator
        }
    }

    /// The size of the ratio in units of `1 / SCALE`, rounded to the nearest
    /// unit, a half rounded away from zero.
    pub open spec fn scaled(self) -> nat {
        ((self.magnitude() * SCALE + self.denominator / 2) / self.denominator) as nat
    }

    /// The ratio in decimal notation, rounded to six places: a minus sign
    /// if the rounded value is below zero, the whole part, and, unless it is
    /// zero, a point and the fractional part without trailing zeros.
    pub open spec fn decimal(self) -> Seq<char> {
        let scaled = self.scaled();
        let sign = if self.numerator < 0 && scaled != 0 {
            seq!['-']
        } else {
            Seq::empty()
        };
        let places = if scaled % (SCALE as nat) == 0 {
            Seq::empty()
        } else {
            seq!['.'] + fraction_digits(scaled % (SCALE as nat), FIRST_DIVISOR as nat)
        };
        sign + natural_digits(scaled / (SCALE as nat)) + places
    }
}

/// Rounding goes to the nearest unit: the rounded size of a ratio is off its
/// true size by half a unit of `1 / SCALE` at most.
pub proof fn lemma_scaled_is_nearest(ratio: Ratio)
    requires
        ratio.denominator > 0,
    ensures
        -ratio.denominator <= 2 * (ratio.scaled() * ratio.denominator - ratio.magnitude() * SCALE)
            <= ratio.denominator,
{
    let denominator = ratio.denominator;
    let padded = ratio.magnitude() * SCALE + denominator / 2;
    lemma_fundamental_div_mod(padded, denominator);
    lemma_mod_bound(padded, denominator);
    lemma_div_pos_is_pos(padded, denominator);
    assert(denominator * (padded / denominator) == (padded / denominator) * denominator)
        by (nonlinear_arith);
}

/// A whole number is written without a decimal point: its sign, if it is
/// below zero, and its digits.
pub proof fn lemma_whole_is_written_plainly(value: int)
    ensures
        Ratio::whole(value).decimal() == if value < 0 {
            seq!['-'] + natural_digits((-value) as nat)
        } else {
            natural_digits(value as nat)
        },
{
    let ratio = Ratio::whole(value);
    let magnitude = ratio.magnitude();
    assert(ratio.scaled() == magnitude * SCALE);
    lemma_mod_multiples_basic(magnitude, SCALE as int);
    lemma_div_by_multiple(magnitude, SCALE as int);
    if value < 0 {
        assert(ratio.decimal() =~= seq!['-'] + natural_digits((-value) as nat));
    } else {
        assert(ratio.decimal() =~= natural_digits(value as nat));
    }
}

/// The numbers that a sequence of fractions stands for.
pub open spec fn ratios(fractions: Seq<Fraction>) -> Seq<Ratio> {
    fractions.map_values(|fraction: Fraction| fraction@)
}

/// A fraction of two machine integers with a positive denominator.
#[derive(Debug, Clone, Copy)]
pub struct Fraction {
    numerator: i64,
    denominator: i64,
}

impl View for Fraction {
    type V = Ratio;

    closed spec fn view(&self) -> Ratio {
        Ratio { numerator: self.numerator as int, denominator: self.denominator as int }
    }
}

impl Fraction {
    #[verifier::type_invariant]
    spec fn positive_denominator(self) -> bool {
        self.denominator > 0
    }

    /// The fraction `numerator / denominator`, unless the denominator is not
    /// positive.
    pub fn new(numerator: i64, denominator: i64) -> (made: Option<Fraction>)
        ensures
            denominator <= 0 ==> made is None,
            denominator > 0 ==> made is Some && made->Some_0@ == (Ratio {
                numerator: numerator as int,
                denominator: denominator as int,
            }),
    {
        if denominator > 0 {
            Some(Fraction::over(numerator, denominator))
        } else {
            None
        }
    }

    /// The fraction `numerator / denominator` of a positive denominator.
    pub(crate) fn over(numerator: i64, denominator: i64) -> (made: Fraction)
        requires
            denominator > 0,
        ensures
            made@ == (Ratio { numerator: numerator as int, denominator: denominator as int }),
    {
        Fraction { numerator, denominator }
    }

    /// The whole number `value` as a fraction over one.
    pub fn whole(value: i32) -> (made: Fraction)
        ensures
            made@ == Ratio::whole(value as int),
    {
        Fraction { numerator: value as i64, denominator: 1 }
    }

    /// The numerator.
    pub fn numerator(&self) -> (numerator: i64)
        ensures
            numerator == self@.numerator,
    {
        self.numerator
    }

    /// The denominator, which is positive.
    pub fn denominator(&self) -> (denominator: i64)
        ensures
            denominator == self@.denominator,
            denominator > 0,
    {
        proof {
            use_type_invariant(self);
        }
        self.denominator
    }

    /// Writes the fraction in decimal notation.
    pub fn to_string(&self) -> (text: String)
        ensures
            text@ == self@.decimal(),
    {
        proof {
            use_type_invariant(self);
            reveal_strlit("-");
            reveal_strlit(".");
        }
        let negative = self.numerator < 0;
        let magnitude: u128 = if negative {
            (-(self.numerator as i128)) as u128
        } else {
            self.numerator as u128
        };
        let denominator = self.denominator as u128;
        let scaled: u128 = (magnitude * SCALE + denominator / 2) / denominator;
        let whole: u128 = scaled / SCALE;
        let rest: u32 = (scaled % SCALE) as u32;
        let mut text = String::new();
        if negative && scaled != 0 {
            text.append("-");
            assert(text@ =~= seq!['-']);
        }
        let ghost sign = text@;
        push_natural(&mut text, whole);
        if rest != 0 {
            text.append(".");
            push_fraction(&mut text, rest, FIRST_DIVISOR);
            assert(text@ =~= sign + natural_digits(whole as nat) + (seq!['.'] + fraction_digits(
                rest as nat,
                FIRST_DIVISOR as nat,
            )));
        } else {
            assert(text@ =~= sign + natural_digits(whole as nat) + Seq::<char>::empty());
        }
        text
    }
}

/// The text of one decimal digit.
fn digit_text(d: u8) -> (text: &'static str)
    requires
        d < 10,
    ensures
        text@ == seq![digit(d as int)],
{
    proof {
        reveal_strlit("0");
        reveal_strlit("1");
        reveal_strlit("2");
        reveal_strlit("3");
        reveal_strlit("4");
        reveal_strlit("5");
        reveal_strlit("6");
        reveal_strlit("7");
        reveal_strlit("8");
        reveal_strlit("9");
    }
    let text = match d {
        0 => "0",
        1 => "1",
        2 => "2",
        3 => "3",
        4 => "4",
        5 => "5",
        6 => "6",
        7 => "7",
        8 => "8",
        _ => "9",
    };
    assert(text@ =~= seq![digit(d as int)]);
    text
}

/// Appends the decimal digits of `value` to `text`.
pub fn push_natural(text: &mut String, value: u128)
    ensures
        final(text)@ == old(text)@ + natural_digits(value as nat),
    decreases value,
{
    if value >= 10 {
        push_natural(text, value / 10);
    }
    text.append(digit_text((value % 10) as u8));
    assert(text@ =~= old(text)@ + natural_digits(value as nat));
}

/// Whether `divisor` is a power of ten that weighs one of the places after
/// the decimal point, or zero, which ends them.
spec fn is_place(divisor: nat) -> bool {
    divisor == 0 || divisor == 1 || divisor == 10 || divisor == 100 || divisor == 1_000 || divisor
        == 10_000 || divisor == 100_000
}

/// Appends the digits that `rest` has at the weight `divisor` and below.
fn push_fraction(text: &mut String, rest: u32, divisor: u32)
    requires
        is_place(divisor as nat),
        rest == 0 || rest < 10 * divisor,
    ensures
        final(text)@ == old(text)@ + fraction_digits(rest as nat, divisor as nat),
    decreases divisor,
{
    if rest != 0 && divisor != 0 {
        assert(rest / divisor < 10) by (nonlinear_arith)
            requires
                0 < divisor,
                rest < 10 * divisor,
        ;
        text.append(digit_text((rest / divisor) as u8));
        push_fraction(text, rest % divisor, divisor / 10);
        assert(text@ =~= old(text)@ + fraction_digits(rest as nat, divisor as nat));
    } else {
        assert(text@ =~= old(text)@ + fraction_digits(rest as nat, divisor as nat));
    }
}

} // verus!
