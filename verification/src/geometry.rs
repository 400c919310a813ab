//! Sizes, bounding boxes and scale factors.
//!
//! A scale factor is kept as an exact fraction of two pixel counts, so that
//! comparing two factors and dividing a length by one are integer
//! computations with a precise meaning.

use crate::error::InvalidGeometry;
use vstd::prelude::*;

verus! {

/// A width and a height in pixels. The same pair also serves as an offset
/// (x, y) inside a raster.
#[derive(Debug, Clone, Copy, PartialEq, Eq, Structural)]
pub struct ImgSize(pub u32, pub u32);

impl ImgSize {
    /// Both sides are at least one pixel long, as a raster that can be drawn needs.
    pub open spec fn positive(self) -> bool {
        self.0 > 0 && self.1 > 0
    }

    pub fn is_positive(&self) -> (b: bool)
        ensures
            b == self.positive(),
    {
        self.0 > 0 && self.1 > 0
    }
}

/// The footprint of a channel in the coordinates of the whole slide.
#[derive(Debug, Clone, Copy, PartialEq, Eq, Structural)]
pub struct BBox {
    pub min_x: u32,
    pub min_y: u32,
    pub max_x: u32,
    pub max_y: u32,
}

impl BBox {
    /// The box covers at least one unit on each axis.
    pub open spec fn wf(self) -> bool {
        self.min_x < self.max_x && self.min_y < self.max_y
    }

    pub open spec fn extent_x(self) -> int {
        self.max_x - self.min_x
    }

    pub open spec fn extent_y(self) -> int {
        self.max_y - self.min_y
    }

    pub fn is_valid(&self) -> (b: bool)
        ensures
            b == self.wf(),
    {
        self.min_x < self.max_x && self.min_y < self.max_y
    }
}

/// The bounding boxes of the three channels.
#[derive(Debug, Clone, Copy, PartialEq, Eq, Structural)]
pub struct ImageBBoxes {
    pub red: BBox,
    pub green: BBox,
    pub blue: BBox,
}

/// What a list of four numbers `min_x min_y max_x max_y` stands for.
pub open spec fn bbox_of(values: Seq<u32>) -> Result<BBox, InvalidGeometry> {
    if values.len() != 4 {
        Err(InvalidGeometry::WrongCardinality)
    } else if values[0] < values[2] && values[1] < values[3] {
        Ok(BBox { min_x: values[0], min_y: values[1], max_x: values[2], max_y: values[3] })
    } else {
        Err(InvalidGeometry::ZeroExtent)
    }
}

/// Reads a bounding box from four numbers. A list of another length is
/// rejected, and so is a box that is empty or inverted on an axis.
pub fn validate_bbox(bbox: Vec<u32>) -> (r: Result<BBox, InvalidGeometry>)
    ensures
        r == bbox_of(bbox@),
        r matches Ok(b) ==> b.wf(),
{
    bbox_from(bbox.as_slice())
}

/// Reads a bounding box from a slice of four numbers, as `validate_bbox`
/// does from a list.
pub fn bbox_from(values: &[u32]) -> (r: Result<BBox, InvalidGeometry>)
    ensures
        r == bbox_of(values@),
        r matches Ok(b) ==> b.wf(),
{
    if values.len() != 4 {
        return Err(InvalidGeometry::WrongCardinality);
    }
    let min_x = values[0];
    let min_y = values[1];
    let max_x = values[2];
    let max_y = values[3];
    if min_x < max_x && min_y < max_y {
        Ok(BBox { min_x, min_y, max_x, max_y })
    } else {
        Err(InvalidGeometry::ZeroExtent)
    }
}

/// What a list of two numbers `width height` stands for.
pub open spec fn size_of(values: Seq<u32>) -> Result<ImgSize, InvalidGeometry> {
    if values.len() != 2 {
        Err(InvalidGeometry::WrongCardinality)
    } else {
        Ok(ImgSize(values[0], values[1]))
    }
}

/// Reads the size of the whole slide from two numbers.
pub fn validate_original_size(size: Vec<u32>) -> (r: Result<ImgSize, InvalidGeometry>)
    ensures
        r == size_of(size@),
{
    size_from(size.as_slice())
}

/// Reads the size of the whole slide from a slice of two numbers.
pub fn size_from(values: &[u32]) -> (r: Result<ImgSize, InvalidGeometry>)
    ensures
        r == size_of(values@),
{
    if values.len() != 2 {
        return Err(InvalidGeometry::WrongCardinality);
    }
    let width = values[0];
    let height = values[1];
    Ok(ImgSize(width, height))
}

/// The integer nearest to `n / d`; a quotient that ends in one half goes up.
pub open spec fn round_div(n: int, d: int) -> int {
    (2 * n + d) / (2 * d)
}

/// `round_div(n, d)` is at most one half away from `n / d`.
pub proof fn lemma_round_div_is_nearest(n: int, d: int)
    requires
        0 <= n,
        0 < d,
    ensures
        0 <= round_div(n, d),
        2 * d * round_div(n, d) - d <= 2 * n < 2 * d * round_div(n, d) + d,
{
    let r = round_div(n, d);
    vstd::arithmetic::div_mod::lemma_fundamental_div_mod(2 * n + d, 2 * d);
    vstd::arithmetic::div_mod::lemma_mod_bound(2 * n + d, 2 * d);
    vstd::arithmetic::div_mod::lemma_div_pos_is_pos(2 * n + d, 2 * d);
    assert(2 * d * r == (2 * d) * r) by (nonlinear_arith);
}

/// A quotient that is exact is its own nearest integer.
pub proof fn lemma_round_div_exact(q: int, d: int)
    requires
        0 <= q,
        0 < d,
    ensures
        round_div(q * d, d) == q,
{
    assert(2 * (q * d) + d == q * (2 * d) + d) by (nonlinear_arith);
    vstd::arithmetic::div_mod::lemma_fundamental_div_mod_converse_div(2 * (q * d) + d, 2 * d, q, d);
}

/// Two fractions of the same value round to the same integer.
pub proof fn lemma_round_div_same_fraction(a: int, b: int, c: int, d: int)
    requires
        0 <= a,
        0 < b,
        0 <= c,
        0 < d,
        a * d == c * b,
    ensures
        round_div(a, b) == round_div(c, d),
{
    let r = round_div(a, b);
    lemma_round_div_is_nearest(a, b);
    assert(2 * d * r - d <= 2 * c < 2 * d * r + d) by (nonlinear_arith)
        requires
            2 * b * r - b <= 2 * a < 2 * b * r + b,
            a * d == c * b,
            0 < b,
            0 < d,
    {
        assert((2 * b * r - b) * d <= (2 * a) * d);
        assert((2 * a) * d < (2 * b * r + b) * d);
        assert((2 * a) * d == (2 * c) * b);
        assert((2 * b * r - b) * d == (2 * d * r - d) * b);
        assert((2 * b * r + b) * d == (2 * d * r + d) * b);
    }
    assert(2 * c + d == r * (2 * d) + (2 * c + d - 2 * d * r)) by (nonlinear_arith);
    vstd::arithmetic::div_mod::lemma_fundamental_div_mod_converse_div(
        2 * c + d,
        2 * d,
        r,
        2 * c + d - 2 * d * r,
    );
}

/// A fraction `num / den` of two pixel counts.
#[derive(Debug, Clone, Copy, PartialEq, Eq, Structural)]
pub struct Ratio {
    pub num: u32,
    pub den: u32,
}

impl Ratio {
    /// The fraction is defined and greater than zero.
    pub open spec fn positive(self) -> bool {
        self.num > 0 && self.den > 0
    }

    /// `self < other` as fractions, by cross-multiplication.
    pub open spec fn lt(self, other: Ratio) -> bool {
        self.num * other.den < other.num * self.den
    }

    /// `self <= other` as fractions.
    pub open spec fn le(self, other: Ratio) -> bool {
        self.num * other.den <= other.num * self.den
    }

    /// The two fractions have the same value, whatever their terms.
    pub open spec fn same(self, other: Ratio) -> bool {
        self.num * other.den == other.num * self.den
    }

    /// The smaller of two fractions; of two equal ones, the first.
    pub open spec fn min(self, other: Ratio) -> Ratio {
        if other.lt(self) {
            other
        } else {
            self
        }
    }

    /// `value / self`, rounded down.
    pub open spec fn divide_floor(self, value: int) -> int {
        (value * self.den) / (self.num as int)
    }

    /// `value / self`, rounded to the nearest integer.
    pub open spec fn divide_round(self, value: int) -> int {
        round_div(value * self.den, self.num as int)
    }

    pub fn is_positive(&self) -> (b: bool)
        ensures
            b == self.positive(),
    {
        self.num > 0 && self.den > 0
    }

    pub fn is_less_than(&self, other: &Ratio) -> (b: bool)
        ensures
            b == self.lt(*other),
    {
        let left = mul_u32(self.num, other.den);
        let right = mul_u32(other.num, self.den);
        left < right
    }

    pub fn is_same(&self, other: &Ratio) -> (b: bool)
        ensures
            b == self.same(*other),
    {
        let left = mul_u32(self.num, other.den);
        let right = mul_u32(other.num, self.den);
        left == right
    }

    pub fn smaller(&self, other: &Ratio) -> (m: Ratio)
        ensures
            m == self.min(*other),
    {
        if other.is_less_than(self) {
            *other
        } else {
            *self
        }
    }

    /// Divides a length by the fraction and rounds down.
    pub fn floor_quotient(&self, value: u32) -> (q: u64)
        requires
            self.num > 0,
        ensures
            q == self.divide_floor(value as int),
    {
        let n = mul_u32(value, self.den);
        n / (self.num as u64)
    }

    /// Divides a length by the fraction and rounds to the nearest integer.
    pub fn nearest_quotient(&self, value: u32) -> (q: u64)
        requires
            self.num > 0,
        ensures
            q == self.divide_round(value as int),
    {
        let n = mul_u32(value, self.den);
        let twice: u128 = 2 * (n as u128) + (self.num as u128);
        let q: u128 = twice / (2 * (self.num as u128));
        proof {
            lemma_round_div_is_nearest(n as int, self.num as int);
            let r = round_div(n as int, self.num as int);
            assert(r <= n) by (nonlinear_arith)
                requires
                    2 * self.num * r - self.num <= 2 * n,
                    0 <= r,
                    self.num >= 1,
            ;
        }
        q as u64
    }
}

/// The product of two 32-bit counts, which always fits 64 bits.
pub fn mul_u32(a: u32, b: u32) -> (p: u64)
    ensures
        p == a * b,
{
    assert(a * b <= 0xFFFF_FFFF * 0xFFFF_FFFF) by (nonlinear_arith)
        requires
            a <= 0xFFFF_FFFF,
            b <= 0xFFFF_FFFF,
    ;
    (a as u64) * (b as u64)
}

/// How many units of the slide one pixel of a raster covers, on each axis.
/// A larger factor means a coarser raster.
#[derive(Debug, Clone, Copy, PartialEq, Eq, Structural)]
pub struct ImgScale(pub Ratio, pub Ratio);

impl ImgScale {
    /// Both factors are defined and greater than zero.
    pub open spec fn positive(self) -> bool {
        self.0.positive() && self.1.positive()
    }

    /// The two scales have the same value on both axes.
    pub open spec fn same(self, other: ImgScale) -> bool {
        self.0.same(other.0) && self.1.same(other.1)
    }

    /// No pixel is wider or taller than one unit of the slide, and none narrower.
    pub open spec fn is_one(self) -> bool {
        self.0.num == self.0.den && self.1.num == self.1.den
    }

    pub fn is_positive(&self) -> (b: bool)
        ensures
            b == self.positive(),
    {
        self.0.is_positive() && self.1.is_positive()
    }

    pub fn is_same(&self, other: &ImgScale) -> (b: bool)
        ensures
            b == self.same(*other),
    {
        self.0.is_same(&other.0) && self.1.is_same(&other.1)
    }
}

/// The least factor of three scales, taken on each axis by itself.
pub open spec fn minimum_scale(a: ImgScale, b: ImgScale, c: ImgScale) -> ImgScale {
    ImgScale(a.0.min(b.0).min(c.0), a.1.min(b.1).min(c.1))
}

/// The order of fractions is transitive.
pub proof fn lemma_ratio_le_transitive(a: Ratio, b: Ratio, c: Ratio)
    requires
        b.den > 0,
        a.le(b),
        b.le(c),
    ensures
        a.le(c),
{
    let (an, ad) = (a.num as int, a.den as int);
    let (bn, bd) = (b.num as int, b.den as int);
    let (cn, cd) = (c.num as int, c.den as int);
    assert((an * cd) * bd <= (cn * ad) * bd) by (nonlinear_arith)
        requires
            an * bd <= bn * ad,
            bn * cd <= cn * bd,
            0 <= ad,
            0 <= cd,
    {
        assert((an * bd) * cd <= (bn * ad) * cd);
        assert((bn * cd) * ad <= (cn * bd) * ad);
    }
    assert(an * cd <= cn * ad) by (nonlinear_arith)
        requires
            (an * cd) * bd <= (cn * ad) * bd,
            bd > 0,
    ;
}

/// The least of three scales is, on each axis, the factor of one of them,
/// and no factor on that axis is below it.
pub proof fn lemma_minimum_scale_is_least(a: ImgScale, b: ImgScale, c: ImgScale)
    requires
        a.positive(),
        b.positive(),
        c.positive(),
    ensures
        ({
            let m = minimum_scale(a, b, c);
            &&& m.positive()
            &&& (m.0 == a.0 || m.0 == b.0 || m.0 == c.0)
            &&& (m.1 == a.1 || m.1 == b.1 || m.1 == c.1)
            &&& m.0.le(a.0) && m.0.le(b.0) && m.0.le(c.0)
            &&& m.1.le(a.1) && m.1.le(b.1) && m.1.le(c.1)
        }),
{
    let m = minimum_scale(a, b, c);
    lemma_ratio_le_transitive(m.0, a.0.min(b.0), a.0);
    lemma_ratio_le_transitive(m.0, a.0.min(b.0), b.0);
    lemma_ratio_le_transitive(m.1, a.1.min(b.1), a.1);
    lemma_ratio_le_transitive(m.1, a.1.min(b.1), b.1);
}

/// The value of the least scale does not depend on the order in which the
/// three channels are given.
pub proof fn lemma_minimum_scale_any_order(a: ImgScale, b: ImgScale, c: ImgScale)
    requires
        a.positive(),
        b.positive(),
        c.positive(),
    ensures
        minimum_scale(a, b, c).same(minimum_scale(a, c, b)),
        minimum_scale(a, b, c).same(minimum_scale(b, a, c)),
        minimum_scale(a, b, c).same(minimum_scale(b, c, a)),
        minimum_scale(a, b, c).same(minimum_scale(c, a, b)),
        minimum_scale(a, b, c).same(minimum_scale(c, b, a)),
{
    lemma_minimum_scale_is_least(a, b, c);
    lemma_minimum_scale_is_least(a, c, b);
    lemma_minimum_scale_is_least(b, a, c);
    lemma_minimum_scale_is_least(b, c, a);
    lemma_minimum_scale_is_least(c, a, b);
    lemma_minimum_scale_is_least(c, b, a);
}

} // verus!
