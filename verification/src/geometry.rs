//! The geometry preprocessor: the axis-aligned bounding box of a vertex
//! list, and the step from a cell-space offset to the engine's integer cell
//! coordinate.

use vstd::prelude::*;
use vstd::arithmetic::power2::{pow2, lemma_pow2_pos, lemma_pow2_adds, lemma_pow2_strictly_increases, lemma2_to64};
use vstd::arithmetic::mul::{lemma_mul_inequality, lemma_mul_strict_inequality, lemma_mul_is_commutative};
use vstd::arithmetic::div_mod::{lemma_basic_div, lemma_div_is_ordered, lemma_div_multiples_vanish_quotient, lemma_div_by_multiple};
use vstd::bits::lemma_u32_shr_is_div;
use crate::point::Point;
use crate::single::{is_nan, lemma_ordinal_orders_values, lower, lower_of, ordinal, scaled, scaled_magnitude, upper, upper_of, INFINITY, SIGN_BIT};

verus! {

/// The largest cell coordinate.
pub const CELL_MAX: u16 = 0xffff;

/// The coordinate of vertex `i` on `axis` (0 for x, 1 for y, 2 for z) in a
/// flattened vertex list.
pub open spec fn coordinate(vertices: Seq<u32>, i: int, axis: int) -> u32 {
    vertices[3 * i + axis]
}

/// The least coordinate on `axis` among the first `n` vertices. Coordinates
/// that are no number are passed over; of equal numbers the earliest stays.
pub open spec fn axis_min(vertices: Seq<u32>, axis: int, n: int) -> u32
    decreases n,
{
    if n <= 1 {
        coordinate(vertices, 0, axis)
    } else {
        lower_of(axis_min(vertices, axis, n - 1), coordinate(vertices, n - 1, axis))
    }
}

/// The greatest coordinate on `axis` among the first `n` vertices, with the
/// same treatment of what is no number and of equal numbers.
pub open spec fn axis_max(vertices: Seq<u32>, axis: int, n: int) -> u32
    decreases n,
{
    if n <= 1 {
        coordinate(vertices, 0, axis)
    } else {
        upper_of(axis_max(vertices, axis, n - 1), coordinate(vertices, n - 1, axis))
    }
}

/// The bounding box of a flattened vertex list: the componentwise minimum
/// and maximum over all its vertices.
pub open spec fn bounding_box(vertices: Seq<u32>) -> (Point, Point) {
    let n = vertices.len() as int / 3;
    (
        Point {
            x: axis_min(vertices, 0, n),
            y: axis_min(vertices, 1, n),
            z: axis_min(vertices, 2, n),
        },
        Point {
            x: axis_max(vertices, 0, n),
            y: axis_max(vertices, 1, n),
            z: axis_max(vertices, 2, n),
        },
    )
}

/// The cell that a cell-space offset falls into: the whole part of its
/// value, held within the range of a cell coordinate. An offset below zero,
/// or one that is no number, falls into cell zero.
pub open spec fn cell_of(offset: u32) -> int {
    if is_nan(offset) || scaled(offset) <= 0 {
        0
    } else {
        let whole = scaled(offset) / (pow2(149) as int);
        if whole > CELL_MAX {
            CELL_MAX as int
        } else {
            whole
        }
    }
}

/// Whether `value` is the coordinate on `axis` of one of the first `n`
/// vertices.
pub open spec fn attained(vertices: Seq<u32>, axis: int, n: int, value: u32) -> bool {
    exists|k: int| 0 <= k < n && #[trigger] coordinate(vertices, k, axis) == value
}

/// On one axis, the minimum and the maximum are each the coordinate of some
/// vertex, and every coordinate that is a number lies between them.
pub proof fn lemma_axis_bounds(vertices: Seq<u32>, axis: int, n: int)
    requires
        1 <= n,
    ensures
        attained(vertices, axis, n, axis_min(vertices, axis, n)),
        attained(vertices, axis, n, axis_max(vertices, axis, n)),
        forall|i: int|
            0 <= i < n && !is_nan(#[trigger] coordinate(vertices, i, axis)) ==> {
                &&& !is_nan(axis_min(vertices, axis, n))
                &&& !is_nan(axis_max(vertices, axis, n))
                &&& ordinal(axis_min(vertices, axis, n)) <= ordinal(coordinate(vertices, i, axis))
                &&& ordinal(coordinate(vertices, i, axis)) <= ordinal(axis_max(vertices, axis, n))
            },
    decreases n,
{
    if n == 1 {
        assert(coordinate(vertices, 0, axis) == axis_min(vertices, axis, n));
        assert(coordinate(vertices, 0, axis) == axis_max(vertices, axis, n));
    } else {
        lemma_axis_bounds(vertices, axis, n - 1);
        let last = coordinate(vertices, n - 1, axis);
        let lo = axis_min(vertices, axis, n - 1);
        let hi = axis_max(vertices, axis, n - 1);
        let k_lo = choose|k: int| 0 <= k < n - 1 && #[trigger] coordinate(vertices, k, axis) == lo;
        let k_hi = choose|k: int| 0 <= k < n - 1 && #[trigger] coordinate(vertices, k, axis) == hi;
        if axis_min(vertices, axis, n) == last {
            assert(coordinate(vertices, n - 1, axis) == axis_min(vertices, axis, n));
        } else {
            assert(coordinate(vertices, k_lo, axis) == axis_min(vertices, axis, n));
        }
        if axis_max(vertices, axis, n) == last {
            assert(coordinate(vertices, n - 1, axis) == axis_max(vertices, axis, n));
        } else {
            assert(coordinate(vertices, k_hi, axis) == axis_max(vertices, axis, n));
        }
        assert forall|i: int|
            0 <= i < n && !is_nan(#[trigger] coordinate(vertices, i, axis)) implies {
            &&& !is_nan(axis_min(vertices, axis, n))
            &&& !is_nan(axis_max(vertices, axis, n))
            &&& ordinal(axis_min(vertices, axis, n)) <= ordinal(coordinate(vertices, i, axis))
            &&& ordinal(coordinate(vertices, i, axis)) <= ordinal(axis_max(vertices, axis, n))
        } by {
            if i < n - 1 {
                assert(!is_nan(lo) && !is_nan(hi));
            }
        }
    }
}

/// The coordinate of a point on `axis`.
pub open spec fn axis_of(p: Point, axis: int) -> u32 {
    if axis == 0 {
        p.x
    } else if axis == 1 {
        p.y
    } else {
        p.z
    }
}

/// Whether every coordinate of the vertex list that is a number lies, by
/// value, between the coordinates of `lo` and `hi` on its axis.
pub open spec fn encloses(vertices: Seq<u32>, lo: Point, hi: Point) -> bool {
    forall|i: int, axis: int|
        0 <= i < vertices.len() / 3 && 0 <= axis < 3 && !is_nan(#[trigger] coordinate(vertices, i, axis)) ==> {
            &&& !is_nan(axis_of(lo, axis))
            &&& !is_nan(axis_of(hi, axis))
            &&& scaled(axis_of(lo, axis)) <= scaled(coordinate(vertices, i, axis))
            &&& scaled(coordinate(vertices, i, axis)) <= scaled(axis_of(hi, axis))
        }
}

/// Whether, on each axis, the coordinate of `lo` and the coordinate of `hi`
/// are each the coordinate of some vertex of the list.
pub open spec fn touches(vertices: Seq<u32>, lo: Point, hi: Point) -> bool {
    forall|axis: int|
        #![trigger axis_of(lo, axis)]
        #![trigger axis_of(hi, axis)]
        0 <= axis < 3 ==> {
            &&& attained(vertices, axis, vertices.len() as int / 3, axis_of(lo, axis))
            &&& attained(vertices, axis, vertices.len() as int / 3, axis_of(hi, axis))
        }
}

/// The cell of an offset, read off its exponent and fraction bits: zero
/// below one, the largest cell from two to the power sixteen on, and between
/// the two the 24-bit significand shifted right by what the exponent leaves
/// of its twenty-three fraction bits.
pub open spec fn cell_by_fields(offset: u32) -> int {
    if offset >= SIGN_BIT || offset > INFINITY || offset < 127 * 0x80_0000 {
        0
    } else if offset >= 143 * 0x80_0000 {
        CELL_MAX as int
    } else {
        (0x80_0000 + offset % 0x80_0000) / (pow2((150 - offset / 0x80_0000) as nat) as int)
    }
}

/// The bounding box encloses the vertices it was computed from: every
/// coordinate that is a number lies between the minimum and the maximum on
/// its axis, by value, and the minimum and the maximum on each axis are each
/// the coordinate of some vertex. Where no coordinate of the list is without
/// a number, that is every vertex, componentwise.
pub proof fn lemma_bounding_box_encloses(vertices: Seq<u32>)
    requires
        vertices.len() > 0,
        vertices.len() % 3 == 0,
    ensures
        encloses(vertices, bounding_box(vertices).0, bounding_box(vertices).1),
        touches(vertices, bounding_box(vertices).0, bounding_box(vertices).1),
{
    let n = vertices.len() as int / 3;
    let lo = bounding_box(vertices).0;
    let hi = bounding_box(vertices).1;
    assert forall|i: int, axis: int|
        0 <= i < n && 0 <= axis < 3 && !is_nan(#[trigger] coordinate(vertices, i, axis)) implies {
        &&& !is_nan(axis_of(lo, axis))
        &&& !is_nan(axis_of(hi, axis))
        &&& scaled(axis_of(lo, axis)) <= scaled(coordinate(vertices, i, axis))
        &&& scaled(coordinate(vertices, i, axis)) <= scaled(axis_of(hi, axis))
    } by {
        lemma_axis_bounds(vertices, axis, n);
        lemma_ordinal_orders_values(axis_min(vertices, axis, n), coordinate(vertices, i, axis));
        lemma_ordinal_orders_values(coordinate(vertices, i, axis), axis_max(vertices, axis, n));
    }
    assert forall|axis: int|
        #![trigger axis_of(lo, axis)]
        #![trigger axis_of(hi, axis)]
        0 <= axis < 3 implies {
        &&& attained(vertices, axis, n, axis_of(lo, axis))
        &&& attained(vertices, axis, n, axis_of(hi, axis))
    } by {
        lemma_axis_bounds(vertices, axis, n);
    }
}

/// A larger offset never falls into a smaller cell, and no offset falls
/// into a cell outside the range of a cell coordinate.
pub proof fn lemma_cell_is_monotonic(a: u32, b: u32)
    requires
        !is_nan(a),
        !is_nan(b),
        scaled(a) <= scaled(b),
    ensures
        0 <= cell_of(a) <= cell_of(b) <= CELL_MAX,
{
    lemma_pow2_pos(149);
    let unit = pow2(149) as int;
    if scaled(a) > 0 {
        lemma_div_is_ordered(0, scaled(a), unit);
        lemma_div_is_ordered(scaled(a), scaled(b), unit);
    }
    if scaled(b) > 0 {
        lemma_div_is_ordered(0, scaled(b), unit);
    }
}

/// The bounding box of a non-empty flattened vertex list, in one pass.
pub fn compute_bb(vertices: &Vec<u32>) -> (bb: (Point, Point))
    requires
        vertices.len() > 0,
        vertices.len() % 3 == 0,
    ensures
        bb == bounding_box(vertices@),
        encloses(vertices@, bb.0, bb.1),
        touches(vertices@, bb.0, bb.1),
{
    let n: usize = vertices.len() / 3;
    let mut bmin = Point { x: vertices[0], y: vertices[1], z: vertices[2] };
    let mut bmax = Point { x: vertices[0], y: vertices[1], z: vertices[2] };
    let mut i: usize = 1;
    while i < n
        invariant
            1 <= i <= n,
            3 * n == vertices.len(),
            bmin.x == axis_min(vertices@, 0, i as int),
            bmin.y == axis_min(vertices@, 1, i as int),
            bmin.z == axis_min(vertices@, 2, i as int),
            bmax.x == axis_max(vertices@, 0, i as int),
            bmax.y == axis_max(vertices@, 1, i as int),
            bmax.z == axis_max(vertices@, 2, i as int),
        decreases n - i,
    {
        let base: usize = 3 * i;
        bmin.x = lower(bmin.x, vertices[base]);
        bmin.y = lower(bmin.y, vertices[base + 1]);
        bmin.z = lower(bmin.z, vertices[base + 2]);
        bmax.x = upper(bmax.x, vertices[base]);
        bmax.y = upper(bmax.y, vertices[base + 1]);
        bmax.z = upper(bmax.z, vertices[base + 2]);
        i = i + 1;
    }
    proof {
        lemma_bounding_box_encloses(vertices@);
    }
    (bmin, bmax)
}

/// The whole part of a finite offset of at least one and below two to the
/// power sixteen is its significand divided by a power of two.
proof fn lemma_whole_part(offset: u32)
    requires
        127 * 0x80_0000 <= offset < 143 * 0x80_0000,
    ensures
        scaled(offset) > 0,
        scaled(offset) / (pow2(149) as int) == cell_by_fields(offset),
        0 < cell_by_fields(offset) <= CELL_MAX,
{
    let exponent = offset as int / 0x80_0000;
    let significand = 0x80_0000 + offset as int % 0x80_0000;
    let shift = (150 - exponent) as nat;
    let low = pow2((exponent - 1) as nat) as int;
    let high = pow2(shift) as int;
    lemma2_to64();
    lemma_pow2_pos((exponent - 1) as nat);
    lemma_pow2_pos(shift);
    lemma_pow2_adds((exponent - 1) as nat, shift);
    assert(pow2(149) == low * high);
    assert(scaled(offset) == significand * low);
    lemma_mul_is_commutative(significand, low);
    lemma_div_multiples_vanish_quotient(low, significand, high);
    lemma_mul_strict_inequality(0, significand, low);
    if shift > 8 {
        lemma_pow2_strictly_increases(8, shift);
    }
    if shift < 23 {
        lemma_pow2_strictly_increases(shift, 23);
    }
    lemma_div_is_ordered(significand, 0xff_ffff, high);
    lemma_div_is_ordered(high, significand, high);
    lemma_div_by_multiple(1, high);
    assert(0xff_ffffint / high <= 0xffff) by (nonlinear_arith)
        requires
            high >= 256,
    ;
}

/// An offset below one has whole part zero.
proof fn lemma_small_offset(offset: u32)
    requires
        offset < 127 * 0x80_0000,
    ensures
        0 <= scaled(offset) < pow2(149),
        scaled(offset) / (pow2(149) as int) == 0,
{
    lemma2_to64();
    let exponent = offset as int / 0x80_0000;
    let fraction = offset as int % 0x80_0000;
    lemma_pow2_pos(149);
    if exponent == 0 {
        lemma_pow2_strictly_increases(23, 149);
    } else {
        let low = pow2((exponent - 1) as nat) as int;
        lemma_pow2_pos((exponent - 1) as nat);
        lemma_mul_strict_inequality(0x80_0000 + fraction, 0x100_0000, low);
        lemma_mul_strict_inequality(0, 0x80_0000 + fraction, low);
        lemma_pow2_adds(24, (exponent - 1) as nat);
        if exponent + 23 < 149 {
            lemma_pow2_strictly_increases((exponent + 23) as nat, 149);
        }
    }
    lemma_basic_div(scaled(offset), pow2(149) as int);
}

/// An offset of two to the power sixteen or more, infinity included, has a
/// whole part beyond the largest cell coordinate.
proof fn lemma_large_offset(offset: u32)
    requires
        143 * 0x80_0000 <= offset <= INFINITY,
    ensures
        scaled(offset) > 0,
        scaled(offset) / (pow2(149) as int) > CELL_MAX,
{
    lemma2_to64();
    let exponent = offset as int / 0x80_0000;
    let fraction = offset as int % 0x80_0000;
    let low = pow2((exponent - 1) as nat) as int;
    let unit = pow2(149) as int;
    lemma_pow2_pos(149);
    lemma_pow2_pos((exponent - 1) as nat);
    lemma_pow2_adds(16, 149);
    lemma_pow2_adds(23, 142);
    if exponent - 1 > 142 {
        lemma_pow2_strictly_increases(142, (exponent - 1) as nat);
    }
    lemma_mul_inequality(pow2(142) as int, low, 0x80_0000);
    lemma_mul_is_commutative(pow2(142) as int, 0x80_0000);
    lemma_mul_is_commutative(low, 0x80_0000);
    lemma_mul_inequality(0x80_0000, 0x80_0000 + fraction, low);
    assert(0x1_0000 * unit <= scaled(offset));
    lemma_div_is_ordered(0x1_0000 * unit, scaled(offset), unit);
    lemma_div_by_multiple(0x1_0000, unit);
}

/// The cell of an offset can be read off its bits.
pub proof fn lemma_cell_by_fields(offset: u32)
    ensures
        cell_of(offset) == cell_by_fields(offset),
{
    if offset >= SIGN_BIT {
        lemma_ordinal_orders_values(offset, 0);
        assert(scaled_magnitude(0) == 0);
    } else if offset > INFINITY {
    } else if offset < 127 * 0x80_0000 {
        lemma_small_offset(offset);
    } else if offset >= 143 * 0x80_0000 {
        lemma_large_offset(offset);
    } else {
        lemma_whole_part(offset);
    }
}

/// The engine's cell coordinate for a cell-space offset: the quotient of a
/// world coordinate's distance from the bounding box minimum by the cell
/// size. The offset is held at zero from below before its whole part is
/// taken, so that rounding can produce no negative or wrapped coordinate, and
/// it is held at the largest cell coordinate from above.
pub fn world_unit_to_cell_unit(offset: u32) -> (cell: u16)
    ensures
        cell == cell_of(offset),
{
    proof {
        lemma_cell_by_fields(offset);
    }
    if offset >= SIGN_BIT || offset > INFINITY {
        return 0;
    }
    let exponent: u32 = offset >> 23;
    let fraction: u32 = offset & 0x7f_ffff;
    assert(exponent == offset / 0x80_0000 && fraction == offset % 0x80_0000) by (bit_vector)
        requires
            exponent == offset >> 23,
            fraction == offset & 0x7f_ffff,
    ;
    if exponent < 127 {
        return 0;
    }
    if exponent >= 143 {
        return CELL_MAX;
    }
    let significand: u32 = 0x80_0000 + fraction;
    let shift: u32 = 150 - exponent;
    proof {
        lemma_u32_shr_is_div(significand, shift);
    }
    (significand >> shift) as u16
}

} // verus!
