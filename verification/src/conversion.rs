//! The conversion engine: the sixteen fixed linear formulas between the four
//! temperature scales, carried out exactly over rational numbers.
//!
//! Every formula of the table is affine with rational coefficients, and every
//! offset it uses is a multiple of 1/100 degree while every slope is 1, 9/5 or
//! 5/9.  A conversion from scale `a` to a different scale `b` therefore maps
//! the rational `num/den` exactly to
//! `(20 * slope45(a, b) * num + offset900(a, b) * den) / (900 * den)`,
//! where `slope45` is the slope scaled by 45 and `offset900` the offset scaled
//! by 900.  A conversion of a scale to itself returns its input unchanged, with
//! no arithmetic, as the formula table's diagonal does.

use crate::temperature::Temperature;
use vstd::prelude::*;

verus! {

/// A degree reading as an exact rational number `num / den`.
#[derive(Clone, Copy, Debug, PartialEq, Eq, Structural)]
pub struct Degrees {
    pub num: i64,
    pub den: i64,
}

/// Magnitude bound on `num` and `den` under which a conversion cannot
/// overflow a 64-bit result.
pub const DEGREE_BOUND: i64 = 0x100_0000_0000;

impl Degrees {
    /// A valid reading: positive denominator, both parts small enough for a
    /// conversion to stay within 64 bits.
    pub open spec fn wf(&self) -> bool {
        0 < self.den <= DEGREE_BOUND && -DEGREE_BOUND <= self.num <= DEGREE_BOUND
    }

    /// The readings `self` and `other` denote the same rational number.
    pub open spec fn spec_same_value(&self, other: Degrees) -> bool {
        self.num * other.den == other.num * self.den
    }
}

/// The slope of the formula from scale `a` to scale `b`, scaled by 45:
/// 45 stands for a slope of 1, 81 for 9/5, and 25 for 5/9.
pub open spec fn slope45(a: Temperature, b: Temperature) -> int {
    match (a, b) {
        (Temperature::Celsius, Temperature::Fahrenheit) => 81,
        (Temperature::Celsius, Temperature::Rankine) => 81,
        (Temperature::Kelvin, Temperature::Fahrenheit) => 81,
        (Temperature::Kelvin, Temperature::Rankine) => 81,
        (Temperature::Fahrenheit, Temperature::Celsius) => 25,
        (Temperature::Fahrenheit, Temperature::Kelvin) => 25,
        (Temperature::Rankine, Temperature::Celsius) => 25,
        (Temperature::Rankine, Temperature::Kelvin) => 25,
        _ => 45,
    }
}

/// The constant offset of the formula from scale `a` to scale `b`, scaled by
/// 900: for instance 28800 stands for +32 and 245835 for +273.15.
pub open spec fn offset900(a: Temperature, b: Temperature) -> int {
    match (a, b) {
        (Temperature::Celsius, Temperature::Fahrenheit) => 28800,
        (Temperature::Celsius, Temperature::Kelvin) => 245835,
        (Temperature::Celsius, Temperature::Rankine) => 442503,
        (Temperature::Fahrenheit, Temperature::Celsius) => -16000,
        (Temperature::Fahrenheit, Temperature::Kelvin) => 229835,
        (Temperature::Fahrenheit, Temperature::Rankine) => 413703,
        (Temperature::Kelvin, Temperature::Celsius) => -245835,
        (Temperature::Kelvin, Temperature::Fahrenheit) => -413703,
        (Temperature::Rankine, Temperature::Celsius) => -245835,
        (Temperature::Rankine, Temperature::Fahrenheit) => -413703,
        _ => 0,
    }
}

/// The numerator of the exact conversion of `num / den` from scale `a` to
/// scale `b`; the diagonal of the table performs no arithmetic at all.
pub open spec fn convert_num(num: int, den: int, a: Temperature, b: Temperature) -> int {
    if a == b {
        num
    } else {
        20 * slope45(a, b) * num + offset900(a, b) * den
    }
}

/// The denominator of the exact conversion of a value with denominator `den`
/// from scale `a` to scale `b`.
pub open spec fn convert_den(den: int, a: Temperature, b: Temperature) -> int {
    if a == b {
        den
    } else {
        900 * den
    }
}

/// Converts a degree reading from scale `a` to scale `b`, exactly.
pub fn convert(degrees: Degrees, a: Temperature, b: Temperature) -> (r: Degrees)
    requires
        degrees.wf(),
    ensures
        r.num == convert_num(degrees.num as int, degrees.den as int, a, b),
        r.den == convert_den(degrees.den as int, a, b),
        0 < r.den,
        a == b ==> r == degrees,
{
    if a == b {
        return degrees;
    }
    let slope: i64 = match (a, b) {
        (Temperature::Celsius, Temperature::Fahrenheit) => 81,
        (Temperature::Celsius, Temperature::Rankine) => 81,
        (Temperature::Kelvin, Temperature::Fahrenheit) => 81,
        (Temperature::Kelvin, Temperature::Rankine) => 81,
        (Temperature::Fahrenheit, Temperature::Celsius) => 25,
        (Temperature::Fahrenheit, Temperature::Kelvin) => 25,
        (Temperature::Rankine, Temperature::Celsius) => 25,
        (Temperature::Rankine, Temperature::Kelvin) => 25,
        _ => 45,
    };
    let offset: i64 = match (a, b) {
        (Temperature::Celsius, Temperature::Fahrenheit) => 28800,
        (Temperature::Celsius, Temperature::Kelvin) => 245835,
        (Temperature::Celsius, Temperature::Rankine) => 442503,
        (Temperature::Fahrenheit, Temperature::Celsius) => -16000,
        (Temperature::Fahrenheit, Temperature::Kelvin) => 229835,
        (Temperature::Fahrenheit, Temperature::Rankine) => 413703,
        (Temperature::Kelvin, Temperature::Celsius) => -245835,
        (Temperature::Kelvin, Temperature::Fahrenheit) => -413703,
        (Temperature::Rankine, Temperature::Celsius) => -245835,
        (Temperature::Rankine, Temperature::Fahrenheit) => -413703,
        _ => 0,
    };
    proof {
        let n = degrees.num as int;
        let d = degrees.den as int;
        assert(-1620 * 0x100_0000_0000 <= 20 * (slope as int) * n <= 1620 * 0x100_0000_0000)
            by (nonlinear_arith)
            requires
                25 <= slope <= 81,
                -0x100_0000_0000 <= n <= 0x100_0000_0000,
        ;
        assert(-442503 * 0x100_0000_0000 <= (offset as int) * d <= 442503 * 0x100_0000_0000)
            by (nonlinear_arith)
            requires
                -442503 <= offset <= 442503,
                0 < d <= 0x100_0000_0000,
        ;
    }
    Degrees { num: 20 * slope * degrees.num + offset * degrees.den, den: 900 * degrees.den }
}

/// One degree conversion: the input reading, the two scales, and the result,
/// computed exactly once at construction time by `new` and cached.
#[derive(Clone, Copy, Debug, PartialEq, Eq, Structural)]
pub struct TemperConversion {
    pub degrees: Degrees,
    pub from: Temperature,
    pub to: Temperature,
    pub result: Degrees,
}

impl TemperConversion {
    /// The record's invariant: the cached result is exactly the conversion of
    /// `degrees` from `from` to `to`; `new` never produces a stale record.
    pub open spec fn wf(&self) -> bool {
        &&& self.result.num == convert_num(
            self.degrees.num as int,
            self.degrees.den as int,
            self.from,
            self.to,
        )
        &&& self.result.den == convert_den(self.degrees.den as int, self.from, self.to)
        &&& 0 < self.result.den
    }

    /// Builds a conversion record; the result is computed here, exactly once.
    pub fn new(degrees: Degrees, from: Temperature, to: Temperature) -> (r: TemperConversion)
        requires
            degrees.wf(),
        ensures
            r.wf(),
            r.degrees == degrees,
            r.from == from,
            r.to == to,
            from == to ==> r.result == degrees,
    {
        let result = convert(degrees, from, to);
        TemperConversion { degrees, from, to, result }
    }

    /// The cached result of the conversion.
    pub fn result(&self) -> (r: Degrees)
        ensures
            r == self.result,
    {
        self.result
    }

    /// The full human-readable sentence, both readings written with two
    /// fractional digits: `"50.00 celsius is 122.00 fahrenheit"`.
    pub fn render(&self) -> (r: String)
        requires
            self.wf(),
        ensures
            r@ == crate::cli::spec_sentence(
                spec_decimal(spec_round_centi(self.degrees.num as int, self.degrees.den as int)),
                self.from,
                spec_decimal(spec_round_centi(self.result.num as int, self.result.den as int)),
                self.to,
            ),
    {
        let degrees_text = format_centi(round_centi(self.degrees.num, self.degrees.den));
        let result_text = format_centi(round_centi(self.result.num, self.result.den));
        crate::cli::sentence(degrees_text.as_str(), self.from, result_text.as_str(), self.to)
    }

    /// The result alone, written with two fractional digits and no sentence
    /// around it: `"122.00"`.
    pub fn render_result(&self) -> (r: String)
        requires
            self.wf(),
        ensures
            r@ == spec_decimal(spec_round_centi(self.result.num as int, self.result.den as int)),
    {
        format_centi(round_centi(self.result.num, self.result.den))
    }
}

/// `num / den` rounded to a whole number of hundredths of a degree, halves
/// away from zero.
pub open spec fn spec_round_centi(num: int, den: int) -> int
    recommends
        den > 0,
{
    if num >= 0 {
        (200 * num + den) / (2 * den)
    } else {
        -((-200 * num + den) / (2 * den))
    }
}

/// The decimal digit character for `d`.
pub open spec fn digit_char(d: int) -> char
    recommends
        0 <= d < 10,
{
    ((48 + d) as u8) as char
}

/// The decimal digits of the non-negative number `n`, most significant first.
pub open spec fn spec_digits(n: int) -> Seq<char>
    recommends
        n >= 0,
    decreases n,
{
    if n < 10 {
        seq![digit_char(n)]
    } else {
        spec_digits(n / 10) + seq![digit_char(n % 10)]
    }
}

/// The centi-degree count `c` written with exactly two fractional digits,
/// such as `-12.05`; a value rounded to zero is written without a sign.
pub open spec fn spec_decimal(c: int) -> Seq<char> {
    let a = if c >= 0 {
        c
    } else {
        -c
    };
    let sign: Seq<char> = if c < 0 {
        seq!['-']
    } else {
        Seq::empty()
    };
    sign + spec_digits(a / 100) + seq!['.'] + seq![digit_char(a / 10 % 10), digit_char(a % 10)]
}

/// Appends the one digit `d`.
fn append_digit(d: u128, s: &mut String)
    requires
        d < 10,
    ensures
        final(s)@ == old(s)@ + seq![digit_char(d as int)],
{
    proof {
        reveal_strlit("0");
        reveal_strlit("1");
        reveal_strlit("2");
        reveal_strlit("3");
        reveal_strlit("4");
        reveal_strlit("5");
        reveal_strlit("6");
        reveal_strlit("7");
        reveal_strlit("8");
        reveal_strlit("9");
    }
    match d {
        0 => s.append("0"),
        1 => s.append("1"),
        2 => s.append("2"),
        3 => s.append("3"),
        4 => s.append("4"),
        5 => s.append("5"),
        6 => s.append("6"),
        7 => s.append("7"),
        8 => s.append("8"),
        _ => s.append("9"),
    }
    assert(s@ =~= old(s)@ + seq![digit_char(d as int)]);
}

/// Appends the decimal digits of `n`, most significant first.
fn append_digits(n: u128, s: &mut String)
    ensures
        final(s)@ == old(s)@ + spec_digits(n as int),
    decreases n,
{
    if n >= 10 {
        append_digits(n / 10, s);
    }
    append_digit(n % 10, s);
    assert(s@ =~= old(s)@ + spec_digits(n as int));
}

/// Rounds the rational `num / den` to a whole number of hundredths, halves
/// away from zero.
pub fn round_centi(num: i64, den: i64) -> (c: i128)
    requires
        0 < den,
    ensures
        c == spec_round_centi(num as int, den as int),
        -0x1_0000_0000_0000_0000_0000 < c < 0x1_0000_0000_0000_0000_0000,
{
    let d: u128 = den as u128;
    if num >= 0 {
        let n: u128 = num as u128;
        ((200 * n + d) / (2 * d)) as i128
    } else {
        let n: u128 = (-(num as i128)) as u128;
        -(((200 * n + d) / (2 * d)) as i128)
    }
}

/// Writes the centi-degree count `c` with exactly two fractional digits.
pub fn format_centi(c: i128) -> (r: String)
    requires
        c > i128::MIN,
    ensures
        r@ == spec_decimal(c as int),
{
    let mut s = String::new();
    let a: u128 = if c < 0 {
        s.append("-");
        proof {
            reveal_strlit("-");
        }
        (-c) as u128
    } else {
        c as u128
    };
    append_digits(a / 100, &mut s);
    proof {
        reveal_strlit(".");
    }
    s.append(".");
    append_digit(a / 10 % 10, &mut s);
    append_digit(a % 10, &mut s);
    proof {
        assert(s@ =~= spec_decimal(c as int));
    }
    s
}

/// Identity: converting a value from a scale to the same scale returns it
/// unchanged, with no arithmetic performed.
pub proof fn lemma_convert_identity(num: int, den: int, a: Temperature)
    ensures
        convert_num(num, den, a, a) == num,
        convert_den(den, a, a) == den,
{
}

/// The slopes of a scale pair and of the reverse pair multiply to 1, and the
/// offsets cancel: the two formulas are exact inverses.
proof fn lemma_coefficients_inverse(a: Temperature, b: Temperature)
    requires
        a != b,
    ensures
        slope45(a, b) * slope45(b, a) == 2025,
        20 * slope45(b, a) * offset900(a, b) + 900 * offset900(b, a) == 0,
{
}

/// Round-trip identity: converting a value from scale `a` to scale `b` and
/// back yields exactly the value it started from, as a rational number.
pub proof fn lemma_convert_round_trip(num: int, den: int, a: Temperature, b: Temperature)
    requires
        0 < den,
    ensures
        convert_num(convert_num(num, den, a, b), convert_den(den, a, b), b, a) * den == num
            * convert_den(convert_den(den, a, b), b, a),
{
    if a != b {
        lemma_coefficients_inverse(a, b);
        let s = slope45(a, b);
        let o = offset900(a, b);
        let s2 = slope45(b, a);
        let o2 = offset900(b, a);
        assert((20 * s2 * (20 * s * num + o * den) + o2 * (900 * den)) * den == num * (900 * (900
            * den))) by (nonlinear_arith)
            requires
                s * s2 == 2025,
                20 * s2 * o + 900 * o2 == 0,
        ;
    }
}

/// Round-trip identity at the level of degree readings: when `y` is the
/// conversion of `x` from scale `a` to scale `b`, and `z` in turn the
/// conversion of `y` back from `b` to `a`, then `z` denotes exactly the
/// rational number `x` does.
pub proof fn lemma_round_trip_value(
    x: Degrees,
    y: Degrees,
    z: Degrees,
    a: Temperature,
    b: Temperature,
)
    requires
        0 < x.den,
        y.num == convert_num(x.num as int, x.den as int, a, b),
        y.den == convert_den(x.den as int, a, b),
        z.num == convert_num(y.num as int, y.den as int, b, a),
        z.den == convert_den(y.den as int, b, a),
    ensures
        z.spec_same_value(x),
{
    lemma_convert_round_trip(x.num as int, x.den as int, a, b);
}

} // verus!
