//! Fixed-point numbers, small vectors and grid addressing.

use vstd::arithmetic::div_mod::{
    lemma_div_denominator, lemma_fundamental_div_mod, lemma_fundamental_div_mod_converse,
    lemma_mod_bound, lemma_multiply_divide_lt, lemma_small_mod,
};
use vstd::prelude::*;

verus! {

/// Number of fractional bits of a [`FixedNumber`].
pub const FRACTION_BITS: u32 = 12;

/// The raw value that stands for the number one.
pub const SCALE: i64 = 4096;

/// Quotient of `a` by `b`, rounded toward zero.
///
/// For a dividend that is not negative this is the Euclidean quotient, for
/// either sign of the divisor; a negative dividend is mirrored.
pub open spec fn trunc_div(a: int, b: int) -> int
    recommends
        b != 0,
{
    if a >= 0 {
        a / b
    } else {
        -((-a) / b)
    }
}

/// A quotient rounded toward zero is no larger in magnitude than the
/// dividend.
pub proof fn lemma_trunc_div_bound(a: int, b: int)
    requires
        b != 0,
    ensures
        a >= 0 ==> -a <= trunc_div(a, b) <= a,
        a < 0 ==> a <= trunc_div(a, b) <= -a,
{
    let m = if a >= 0 { a } else { -a };
    let q = m / b;
    assert(-m <= q <= m) by (nonlinear_arith)
        requires
            m >= 0,
            b != 0,
            q == m / b,
    ;
}

/// `v` limited to the range of a 64-bit signed integer.
pub open spec fn clamp_raw(v: int) -> int {
    if v < i64::MIN {
        i64::MIN as int
    } else if v > i64::MAX {
        i64::MAX as int
    } else {
        v
    }
}

/// Raw value of the fixed-point quotient of two raw values: the scaled
/// quotient rounded toward zero, saturating at the ends of the raw range.
pub open spec fn fixed_quotient(a: int, b: int) -> int
    recommends
        b != 0,
{
    clamp_raw(trunc_div(a * SCALE, b))
}

/// A signed fixed-point number with [`FRACTION_BITS`] fractional bits.
///
/// The number it stands for is `raw / SCALE`. All operations are integer
/// operations on `raw`, so equal inputs give equal bits on every machine.
#[derive(Clone, Copy, Debug, PartialEq, Eq, Structural)]
pub struct FixedNumber {
    pub raw: i64,
}

impl FixedNumber {
    /// The whole number `v`.
    pub fn from_i32(v: i32) -> (r: FixedNumber)
        ensures
            r.raw == v * SCALE,
    {
        let wide: i64 = v as i64;
        FixedNumber { raw: wide * SCALE }
    }

    /// The whole number `v`, saturating at the largest number that can be
    /// represented.
    pub fn from_whole(v: u128) -> (r: FixedNumber)
        ensures
            r.raw == clamp_raw(v * SCALE),
    {
        if v > 0x7_ffff_ffff_ffff {
            FixedNumber { raw: i64::MAX }
        } else {
            let narrow: i64 = v as i64;
            FixedNumber { raw: narrow * 4096 }
        }
    }

    /// Zero.
    pub fn zero() -> (r: FixedNumber)
        ensures
            r.raw == 0,
    {
        FixedNumber { raw: 0 }
    }

    /// One.
    pub fn one() -> (r: FixedNumber)
        ensures
            r.raw == SCALE,
    {
        FixedNumber { raw: SCALE }
    }

    /// The largest number that can be represented.
    pub fn max_value() -> (r: FixedNumber)
        ensures
            r.raw == i64::MAX,
    {
        FixedNumber { raw: i64::MAX }
    }

    /// The smallest positive number that can be represented.
    pub fn decimal_resolution_value() -> (r: FixedNumber)
        ensures
            r.raw == 1,
    {
        FixedNumber { raw: 1 }
    }

    /// Whether this number is zero.
    pub fn is_zero(&self) -> (r: bool)
        ensures
            r == (self.raw == 0),
    {
        self.raw == 0
    }

    /// `self / rhs`, rounded toward zero and saturating.
    pub fn div(self, rhs: FixedNumber) -> (r: FixedNumber)
        requires
            rhs.raw != 0,
        ensures
            r.raw == fixed_quotient(self.raw as int, rhs.raw as int),
    {
        let wide: i128 = self.raw as i128;
        let scaled: i128 = wide * 4096;
        let divisor: i128 = rhs.raw as i128;
        proof {
            assert(scaled == self.raw * SCALE);
            assert(divisor != 0 && scaled != i128::MIN);
            lemma_trunc_div_bound(scaled as int, divisor as int);
        }
        let q: i128 = scaled / divisor;
        if q < i64::MIN as i128 {
            FixedNumber { raw: i64::MIN }
        } else if q > i64::MAX as i128 {
            FixedNumber { raw: i64::MAX }
        } else {
            FixedNumber { raw: q as i64 }
        }
    }

    /// The reciprocal `1 / n`, rounded toward zero.
    pub fn fraction(n: FixedNumber) -> (r: FixedNumber)
        requires
            n.raw != 0,
        ensures
            r.raw == fixed_quotient(SCALE as int, n.raw as int),
    {
        FixedNumber::one().div(n)
    }
}

/// A point or direction in space, in fixed-point coordinates.
#[derive(Clone, Copy, Debug, PartialEq, Eq, Structural)]
pub struct Vec3 {
    pub x: FixedNumber,
    pub y: FixedNumber,
    pub z: FixedNumber,
}

impl Vec3 {
    /// The origin.
    pub fn new() -> (r: Vec3)
        ensures
            r.x.raw == 0,
            r.y.raw == 0,
            r.z.raw == 0,
    {
        Vec3 { x: FixedNumber::zero(), y: FixedNumber::zero(), z: FixedNumber::zero() }
    }

    /// The point with the given whole coordinates.
    pub fn from_ints(x: i32, y: i32, z: i32) -> (r: Vec3)
        ensures
            r.x.raw == x * SCALE,
            r.y.raw == y * SCALE,
            r.z.raw == z * SCALE,
    {
        Vec3 { x: FixedNumber::from_i32(x), y: FixedNumber::from_i32(y), z: FixedNumber::from_i32(z) }
    }
}

/// Whether a grid of the given depths has a cell and a cell count that fits
/// the machine's index type.
pub open spec fn grid_ok(x_depth: int, y_depth: int, z_depth: int) -> bool {
    &&& 0 < x_depth
    &&& 0 < y_depth
    &&& 0 < z_depth
    &&& x_depth * y_depth * z_depth <= usize::MAX
}

/// Flat index of the cell `(x, y, z)`; each coordinate wraps around its
/// axis's depth. `x` runs fastest, `z` slowest.
pub open spec fn flat_index(x: int, y: int, z: int, x_depth: int, y_depth: int, z_depth: int) -> int {
    (x % x_depth) + (y % y_depth) * x_depth + (z % z_depth) * (x_depth * y_depth)
}

/// Coordinates of the cell with flat index `i`; the slowest axis wraps.
pub open spec fn grid_coords(i: int, x_depth: int, y_depth: int, z_depth: int) -> (int, int, int) {
    (i % x_depth, (i / x_depth) % y_depth, (i / (x_depth * y_depth)) % z_depth)
}

/// A flat index lies inside the grid, and so do its partial sums.
pub proof fn lemma_flat_index_bound(x: int, y: int, z: int, x_depth: int, y_depth: int, z_depth: int)
    requires
        0 < x_depth,
        0 < y_depth,
        0 < z_depth,
        0 <= x,
        0 <= y,
        0 <= z,
    ensures
        0 <= x % x_depth < x_depth,
        0 <= y % y_depth < y_depth,
        0 <= z % z_depth < z_depth,
        0 < x_depth * y_depth <= x_depth * y_depth * z_depth,
        0 <= (y % y_depth) * x_depth <= x_depth * y_depth - x_depth,
        0 <= (z % z_depth) * (x_depth * y_depth) <= x_depth * y_depth * z_depth - x_depth * y_depth,
        0 <= flat_index(x, y, z, x_depth, y_depth, z_depth) < x_depth * y_depth * z_depth,
{
    let xm = x % x_depth;
    let ym = y % y_depth;
    let zm = z % z_depth;
    let plane = x_depth * y_depth;
    assert(0 < plane) by (nonlinear_arith)
        requires
            0 < x_depth,
            0 < y_depth,
            plane == x_depth * y_depth,
    ;
    assert(0 <= ym * x_depth <= plane - x_depth) by (nonlinear_arith)
        requires
            0 <= ym < y_depth,
            0 < x_depth,
            plane == x_depth * y_depth,
    ;
    assert(0 <= zm * plane <= plane * z_depth - plane) by (nonlinear_arith)
        requires
            0 <= zm < z_depth,
            0 < plane,
    ;
}

/// Unflattening a flat index gives the wrapped coordinates back.
pub proof fn lemma_index_round_trip_wrapped(
    x: int,
    y: int,
    z: int,
    x_depth: int,
    y_depth: int,
    z_depth: int,
)
    requires
        0 < x_depth,
        0 < y_depth,
        0 < z_depth,
        0 <= x,
        0 <= y,
        0 <= z,
    ensures
        grid_coords(flat_index(x, y, z, x_depth, y_depth, z_depth), x_depth, y_depth, z_depth) == (
            x % x_depth,
            y % y_depth,
            z % z_depth,
        ),
{
    lemma_flat_index_bound(x, y, z, x_depth, y_depth, z_depth);
    let xm = x % x_depth;
    let ym = y % y_depth;
    let zm = z % z_depth;
    let plane = x_depth * y_depth;
    let i = flat_index(x, y, z, x_depth, y_depth, z_depth);
    let row = ym + zm * y_depth;
    assert(i == row * x_depth + xm) by (nonlinear_arith)
        requires
            i == xm + ym * x_depth + zm * (x_depth * y_depth),
            row == ym + zm * y_depth,
    ;
    lemma_fundamental_div_mod_converse(i, x_depth, row, xm);
    lemma_fundamental_div_mod_converse(row, y_depth, zm, ym);
    assert(i == zm * plane + (xm + ym * x_depth));
    lemma_fundamental_div_mod_converse(i, plane, zm, xm + ym * x_depth);
    lemma_small_mod(zm as nat, z_depth as nat);
}

/// For every cell inside the grid, unflattening its flat index gives the
/// cell's own coordinates.
pub proof fn lemma_index_round_trip(x: int, y: int, z: int, x_depth: int, y_depth: int, z_depth: int)
    requires
        0 <= x < x_depth,
        0 <= y < y_depth,
        0 <= z < z_depth,
    ensures
        grid_coords(flat_index(x, y, z, x_depth, y_depth, z_depth), x_depth, y_depth, z_depth) == (
            x,
            y,
            z,
        ),
{
    lemma_index_round_trip_wrapped(x, y, z, x_depth, y_depth, z_depth);
    lemma_small_mod(x as nat, x_depth as nat);
    lemma_small_mod(y as nat, y_depth as nat);
    lemma_small_mod(z as nat, z_depth as nat);
}

/// For every flat index inside the grid, flattening its coordinates gives
/// the index back.
pub proof fn lemma_coords_round_trip(i: int, x_depth: int, y_depth: int, z_depth: int)
    requires
        0 < x_depth,
        0 < y_depth,
        0 < z_depth,
        0 <= i < x_depth * y_depth * z_depth,
    ensures
        0 <= grid_coords(i, x_depth, y_depth, z_depth).0 < x_depth,
        0 <= grid_coords(i, x_depth, y_depth, z_depth).1 < y_depth,
        0 <= grid_coords(i, x_depth, y_depth, z_depth).2 < z_depth,
        flat_index(
            grid_coords(i, x_depth, y_depth, z_depth).0,
            grid_coords(i, x_depth, y_depth, z_depth).1,
            grid_coords(i, x_depth, y_depth, z_depth).2,
            x_depth,
            y_depth,
            z_depth,
        ) == i,
{
    let plane = x_depth * y_depth;
    let x = i % x_depth;
    let row = i / x_depth;
    let y = row % y_depth;
    let z = row / y_depth;
    lemma_fundamental_div_mod(i, x_depth);
    lemma_fundamental_div_mod(row, y_depth);
    lemma_mod_bound(i, x_depth);
    lemma_mod_bound(row, y_depth);
    lemma_div_denominator(i, x_depth, y_depth);
    assert(z == i / plane);
    assert(0 < plane) by (nonlinear_arith)
        requires
            0 < x_depth,
            0 < y_depth,
            plane == x_depth * y_depth,
    ;
    lemma_multiply_divide_lt(i, plane, z_depth);
    assert(0 <= z) by (nonlinear_arith)
        requires
            0 <= i,
            0 < plane,
            z == i / plane,
    ;
    lemma_small_mod(z as nat, z_depth as nat);
    lemma_small_mod(x as nat, x_depth as nat);
    lemma_small_mod(y as nat, y_depth as nat);
    assert(x + y * x_depth + z * plane == i) by (nonlinear_arith)
        requires
            i == x_depth * row + x,
            row == y_depth * z + y,
            plane == x_depth * y_depth,
    ;
}

/// The number of cells of a grid of the given depths.
pub fn grid_len(x_depth: usize, y_depth: usize, z_depth: usize) -> (n: usize)
    requires
        x_depth * y_depth * z_depth <= usize::MAX,
    ensures
        n == x_depth * y_depth * z_depth,
{
    if x_depth == 0 || y_depth == 0 || z_depth == 0 {
        assert(x_depth * y_depth * z_depth == 0) by (nonlinear_arith)
            requires
                x_depth == 0 || y_depth == 0 || z_depth == 0,
        ;
        0
    } else {
        assert(x_depth * y_depth <= x_depth * y_depth * z_depth) by (nonlinear_arith)
            requires
                x_depth > 0,
                y_depth > 0,
                z_depth > 0,
        ;
        x_depth * y_depth * z_depth
    }
}

/// Flattens `(x, y, z)` into an index of a grid of the given depths; a
/// coordinate outside its axis wraps around.
pub fn index_1d(x: usize, y: usize, z: usize, x_depth: usize, y_depth: usize, z_depth: usize) -> (i:
    usize)
    requires
        grid_ok(x_depth as int, y_depth as int, z_depth as int),
    ensures
        i == flat_index(x as int, y as int, z as int, x_depth as int, y_depth as int, z_depth as int),
        i < x_depth * y_depth * z_depth,
{
    proof {
        lemma_flat_index_bound(
            x as int,
            y as int,
            z as int,
            x_depth as int,
            y_depth as int,
            z_depth as int,
        );
    }
    let plane: usize = x_depth * y_depth;
    (x % x_depth) + (y % y_depth) * x_depth + (z % z_depth) * plane
}

/// Unflattens the index `i` into the coordinates of a cell of a grid of
/// the given depths.
pub fn index_3d(i: usize, x_depth: usize, y_depth: usize, z_depth: usize) -> (c: (usize, usize, usize))
    requires
        grid_ok(x_depth as int, y_depth as int, z_depth as int),
    ensures
        (c.0 as int, c.1 as int, c.2 as int) == grid_coords(
            i as int,
            x_depth as int,
            y_depth as int,
            z_depth as int,
        ),
        c.0 < x_depth,
        c.1 < y_depth,
        c.2 < z_depth,
{
    proof {
        lemma_flat_index_bound(0, 0, 0, x_depth as int, y_depth as int, z_depth as int);
    }
    let plane: usize = x_depth * y_depth;
    (i % x_depth, (i / x_depth) % y_depth, (i / plane) % z_depth)
}

} // verus!
