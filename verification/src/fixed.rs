//! Exact fixed-point scalars.
//!
//! Every numeric quantity flowing through the node graph and into the shader
//! text is a [`Fixed`]: a signed count of ten-thousandths. The representation
//! keeps arithmetic exact on the grid the UI edits (four decimal places) and
//! lets the decimal rendering used in shader source be specified digit by
//! digit. Results whose magnitude leaves the representable range saturate to
//! its edge.

use vstd::prelude::*;
use vstd::string::*;

verus! {

/// Fixed-point units per whole unit: four decimal places.
pub const SCALE: i64 = 10_000;

/// Largest magnitude, in units, that arithmetic results may carry.
pub const MAX_UNITS: i64 = 1_000_000_000_000_000;

/// Saturation applied by every arithmetic operation.
pub open spec fn clip(v: int) -> int {
    if v > MAX_UNITS as int {
        MAX_UNITS as int
    } else if v < -(MAX_UNITS as int) {
        -(MAX_UNITS as int)
    } else {
        v
    }
}

pub open spec fn abs_int(v: int) -> int {
    if v < 0 {
        -v
    } else {
        v
    }
}

/// Saturating sum, in units.
pub open spec fn spec_add(a: int, b: int) -> int {
    clip(a + b)
}

/// Saturating difference, in units.
pub open spec fn spec_sub(a: int, b: int) -> int {
    clip(a - b)
}

/// Exact product of two fixed-point quantities, truncated toward zero onto
/// the representable grid, then saturated.
pub open spec fn spec_mul(a: int, b: int) -> int {
    let p = (abs_int(a) * abs_int(b)) / (SCALE as int);
    if (a < 0) != (b < 0) {
        clip(-p)
    } else {
        clip(p)
    }
}

/// A signed fixed-point number with four decimal places.
#[derive(Clone, Copy, PartialEq, Eq, Structural, Debug)]
pub struct Fixed {
    pub units: i64,
}

/// The decimal digit character for `d` (`0 <= d <= 9`).
pub open spec fn spec_digit(d: int) -> char {
    if d == 0 {
        '0'
    } else if d == 1 {
        '1'
    } else if d == 2 {
        '2'
    } else if d == 3 {
        '3'
    } else if d == 4 {
        '4'
    } else if d == 5 {
        '5'
    } else if d == 6 {
        '6'
    } else if d == 7 {
        '7'
    } else if d == 8 {
        '8'
    } else {
        '9'
    }
}

/// Decimal digits of a non-negative integer, most significant first.
pub open spec fn spec_nat_text(n: int) -> Seq<char>
    decreases n,
{
    if n < 10 {
        seq![spec_digit(n)]
    } else {
        spec_nat_text(n / 10).push(spec_digit(n % 10))
    }
}

/// Drops trailing `'0'` characters.
pub open spec fn spec_trim_zeros(s: Seq<char>) -> Seq<char>
    decreases s.len(),
{
    if s.len() > 0 && s.last() == '0' {
        spec_trim_zeros(s.drop_last())
    } else {
        s
    }
}

/// The fractional digits for `0 < f < SCALE` units past the decimal point:
/// four zero-padded digits with trailing zeros dropped.
pub open spec fn spec_frac_text(f: int) -> Seq<char> {
    spec_trim_zeros(
        seq![
            spec_digit(f / 1000),
            spec_digit((f / 100) % 10),
            spec_digit((f / 10) % 10),
            spec_digit(f % 10),
        ],
    )
}

/// Decimal rendering of a non-negative quantity of units.
pub open spec fn spec_unsigned_text(u: int) -> Seq<char> {
    if u % (SCALE as int) == 0 {
        spec_nat_text(u / (SCALE as int))
    } else {
        spec_nat_text(u / (SCALE as int)) + seq!['.'] + spec_frac_text(u % (SCALE as int))
    }
}

/// Decimal rendering of a quantity of units: integer part, and a fractional
/// part only when it is non-zero, as in `0.35`, `-2.5`, `14`.
pub open spec fn spec_fixed_text(u: int) -> Seq<char> {
    if u < 0 {
        seq!['-'] + spec_unsigned_text(-u)
    } else {
        spec_unsigned_text(u)
    }
}

/// Appends the digit character for `d`.
fn push_digit(s: &mut String, d: u64)
    requires
        d < 10,
    ensures
        final(s)@ == old(s)@ + seq![spec_digit(d as int)],
{
    proof {
        reveal_strlit("0");
        reveal_strlit("1");
        reveal_strlit("2");
        reveal_strlit("3");
        reveal_strlit("4");
        reveal_strlit("5");
        reveal_strlit("6");
        reveal_strlit("7");
        reveal_strlit("8");
        reveal_strlit("9");
    }
    match d {
        0 => s.append("0"),
        1 => s.append("1"),
        2 => s.append("2"),
        3 => s.append("3"),
        4 => s.append("4"),
        5 => s.append("5"),
        6 => s.append("6"),
        7 => s.append("7"),
        8 => s.append("8"),
        _ => s.append("9"),
    }
    proof {
        assert(s@ =~= old(s)@ + seq![spec_digit(d as int)]);
    }
}

/// Appends the decimal digits of `n`, most significant first.
fn push_nat_text(s: &mut String, n: u64)
    ensures
        final(s)@ == old(s)@ + spec_nat_text(n as int),
    decreases n,
{
    if n >= 10 {
        push_nat_text(s, n / 10);
        push_digit(s, n % 10);
        proof {
            assert(s@ =~= old(s)@ + spec_nat_text(n as int));
        }
    } else {
        push_digit(s, n);
    }
}

/// Appends the fractional digits for `f` units past the decimal point.
fn push_frac_text(s: &mut String, f: u64)
    requires
        0 < f < 10_000,
    ensures
        final(s)@ == old(s)@ + spec_frac_text(f as int),
{
    let d0 = f / 1000;
    let d1 = (f / 100) % 10;
    let d2 = (f / 10) % 10;
    let d3 = f % 10;
    push_digit(s, d0);
    if d1 != 0 || d2 != 0 || d3 != 0 {
        push_digit(s, d1);
    }
    if d2 != 0 || d3 != 0 {
        push_digit(s, d2);
    }
    if d3 != 0 {
        push_digit(s, d3);
    }
    proof {
        reveal_with_fuel(spec_trim_zeros, 5);
        let digits = seq![
            spec_digit(f as int / 1000),
            spec_digit((f as int / 100) % 10),
            spec_digit((f as int / 10) % 10),
            spec_digit(f as int % 10),
        ];
        if d3 != 0 {
            assert(spec_trim_zeros(digits) =~= digits);
            assert(s@ =~= old(s)@ + spec_frac_text(f as int));
        } else if d2 != 0 {
            assert(digits.drop_last() =~= digits.subrange(0, 3));
            assert(spec_trim_zeros(digits) =~= digits.subrange(0, 3));
            assert(s@ =~= old(s)@ + spec_frac_text(f as int));
        } else if d1 != 0 {
            assert(digits.drop_last() =~= digits.subrange(0, 3));
            assert(digits.subrange(0, 3).drop_last() =~= digits.subrange(0, 2));
            assert(spec_trim_zeros(digits) =~= digits.subrange(0, 2));
            assert(s@ =~= old(s)@ + spec_frac_text(f as int));
        } else {
            assert(digits.drop_last() =~= digits.subrange(0, 3));
            assert(digits.subrange(0, 3).drop_last() =~= digits.subrange(0, 2));
            assert(digits.subrange(0, 2).drop_last() =~= digits.subrange(0, 1));
            assert(spec_trim_zeros(digits) =~= digits.subrange(0, 1));
            assert(s@ =~= old(s)@ + spec_frac_text(f as int));
        }
    }
}

/// Saturates a wide intermediate result back into range.
fn clamp_units(v: i128) -> (r: i64)
    ensures
        r as int == clip(v as int),
{
    if v > MAX_UNITS as i128 {
        MAX_UNITS
    } else if v < -(MAX_UNITS as i128) {
        -MAX_UNITS
    } else {
        v as i64
    }
}

impl Fixed {
    /// The value stays inside the saturation range.
    pub open spec fn wf(self) -> bool {
        -(MAX_UNITS as int) <= self.units as int <= MAX_UNITS as int
    }

    /// Builds a value from a raw count of ten-thousandths, saturating.
    pub fn from_units(units: i64) -> (r: Fixed)
        ensures
            r.units as int == clip(units as int),
            r.wf(),
    {
        Fixed { units: clamp_units(units as i128) }
    }

    /// Builds a whole number, saturating.
    pub fn from_int(v: i64) -> (r: Fixed)
        ensures
            r.units as int == clip(v as int * SCALE as int),
            r.wf(),
    {
        Fixed { units: clamp_units((v as i128) * (SCALE as i128)) }
    }

    pub fn zero() -> (r: Fixed)
        ensures
            r.units == 0,
            r.wf(),
    {
        Fixed { units: 0 }
    }

    /// Saturating addition.
    pub fn add(self, other: Fixed) -> (r: Fixed)
        ensures
            r.units as int == spec_add(self.units as int, other.units as int),
            r.wf(),
    {
        Fixed { units: clamp_units(self.units as i128 + other.units as i128) }
    }

    /// Saturating subtraction.
    pub fn sub(self, other: Fixed) -> (r: Fixed)
        ensures
            r.units as int == spec_sub(self.units as int, other.units as int),
            r.wf(),
    {
        Fixed { units: clamp_units(self.units as i128 - other.units as i128) }
    }

    /// Saturating product, truncated toward zero onto the grid.
    pub fn mul(self, other: Fixed) -> (r: Fixed)
        ensures
            r.units as int == spec_mul(self.units as int, other.units as int),
            r.wf(),
    {
        let negative = (self.units < 0) != (other.units < 0);
        let a: u128 = if self.units < 0 {
            (-(self.units as i128)) as u128
        } else {
            self.units as u128
        };
        let b: u128 = if other.units < 0 {
            (-(other.units as i128)) as u128
        } else {
            other.units as u128
        };
        proof {
            assert(a <= 9223372036854775808u128 && b <= 9223372036854775808u128);
            assert(a * b <= 85070591730234615865843651857942052864u128) by (nonlinear_arith)
                requires
                    a <= 9223372036854775808u128,
                    b <= 9223372036854775808u128,
            ;
        }
        let q = (a * b) / (SCALE as u128);
        let magnitude: i64 = if q > MAX_UNITS as u128 {
            MAX_UNITS
        } else {
            q as i64
        };
        let r = Fixed { units: if negative { -magnitude } else { magnitude } };
        proof {
            assert(a as int == abs_int(self.units as int));
            assert(b as int == abs_int(other.units as int));
        }
        r
    }

    /// Renders the value as decimal text, exactly as it appears in shader
    /// source: no trailing zeros, no decimal point for whole numbers.
    pub fn to_text(&self) -> (s: String)
        ensures
            s@ == spec_fixed_text(self.units as int),
    {
        let mut s = String::new();
        let magnitude: u64 = if self.units < 0 {
            proof {
                reveal_strlit("-");
            }
            s.append("-");
            (-(self.units as i128)) as u64
        } else {
            self.units as u64
        };
        let whole = magnitude / (SCALE as u64);
        let frac = magnitude % (SCALE as u64);
        push_nat_text(&mut s, whole);
        if frac != 0 {
            proof {
                reveal_strlit(".");
            }
            s.append(".");
            push_frac_text(&mut s, frac);
        }
        proof {
            assert(s@ =~= spec_fixed_text(self.units as int));
        }
        s
    }
}

} // verus!
