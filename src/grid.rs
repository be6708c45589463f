//! World positions to grid cells.
//!
//! Positions and cell sizes are integers in one common unit, chosen by the
//! caller (a fraction of a world unit, for a fixed-point reading of world
//! coordinates).
use vstd::prelude::*;
use vstd::arithmetic::div_mod::*;

verus! {

/// Sign of `p`: 1, -1, or 0 at the origin.
pub open spec fn sign(p: int) -> int {
    if p > 0 {
        1
    } else if p < 0 {
        -1
    } else {
        0
    }
}

pub open spec fn abs(p: int) -> int {
    if p < 0 {
        -p
    } else {
        p
    }
}

/// `a / b` rounded toward zero (`b > 0`).
pub open spec fn div_toward_zero(a: int, b: int) -> int {
    if a >= 0 {
        a / b
    } else {
        -((-a) / b)
    }
}

/// `a / b` rounded up (`b > 0`).
pub open spec fn div_ceil(a: int, b: int) -> int {
    -((-a) / b)
}

/// Magnitude of the centering correction, counted in half cells: with
/// `d = 2|p| - cell_size` (the distance from the first cell boundary,
/// doubled), 0 when `d` is 0, else `ceil(d / cell_size) - 1`.
pub open spec fn correction_magnitude(p: int, cell_size: int) -> int {
    let d = 2 * abs(p) - cell_size;
    if d == 0 {
        0
    } else {
        div_ceil(d, cell_size) - 1
    }
}

/// The centering correction along one axis: half the magnitude, rounded up,
/// carrying the sign of the position.
pub open spec fn correction(p: int, cell_size: int) -> int {
    div_ceil(correction_magnitude(p, cell_size), 2) * sign(p)
}

/// The grid index along one axis: the position in half cells, rounded toward
/// zero, less the centering correction.
pub open spec fn cell_of(p: int, cell_size: int) -> int {
    div_toward_zero(2 * p, cell_size) - correction(p, cell_size)
}

/// Half the correction magnitude, rounded up, in the closed form used by the
/// executable code; `a` is twice the distance from the origin.
spec fn half_correction(a: int, c: int) -> int {
    if a <= c {
        0
    } else {
        ((a - 1) / c) / 2
    }
}

/// The correction as a nonnegative magnitude times the sign of the position.
proof fn lemma_correction_closed_form(p: int, c: int)
    requires
        c > 0,
    ensures
        correction(p, c) == half_correction(2 * abs(p), c) * sign(p),
        half_correction(2 * abs(p), c) >= 0,
{
    let a = 2 * abs(p);
    if p == 0 {
    } else if a < c {
        assert((c - a) / c == 0) by {
            lemma_basic_div(c - a, c);
        }
        assert(-(-1int) / 2 == 0);
    } else if a == c {
    } else {
        let q = (a - 1) / c;
        assert(-((-(a - c)) / c) == q) by {
            let s = (a - 1) % c;
            lemma_fundamental_div_mod(a - 1, c);
            lemma_mod_bound(a - 1, c);
            assert(-(a - c) == (-q) * c + (c - 1 - s)) by (nonlinear_arith)
                requires
                    a - 1 == c * q + s,
            ;
            lemma_fundamental_div_mod_converse_div(-(a - c), c, -q, c - 1 - s);
        }
        assert(q >= 1) by {
            lemma_div_is_ordered(c, a - 1, c);
            lemma_div_by_self(c);
        }
        assert(-((-(q - 1)) / 2) == q / 2) by {
            lemma_fundamental_div_mod(q, 2);
            lemma_mod_bound(q, 2);
            lemma_fundamental_div_mod_converse_div(-(q - 1), 2, -(q / 2), 1 - q % 2);
        }
        lemma_div_pos_is_pos(q, 2);
    }
}

/// The centering correction along one axis, for a position `world_position`
/// and a cell of `cell_size` units.
pub fn calculate_value(world_position: i64, cell_size: u32) -> (r: i64)
    requires
        cell_size > 0,
    ensures
        r == correction(world_position as int, cell_size as int),
{
    let a: u128 = if world_position < 0 {
        (0i128 - world_position as i128) as u128
    } else {
        world_position as u128
    };
    let c: u128 = cell_size as u128;
    let h: u128 = if 2 * a <= c {
        0
    } else {
        ((2 * a - 1) / c) / 2
    };
    proof {
        lemma_correction_closed_form(world_position as int, cell_size as int);
        if 2 * a > c {
            let x = 2 * a as int - 1;
            lemma_div_is_ordered_by_denominator(x, 1, c as int);
            lemma_div_is_ordered(x / (c as int), x, 2);
        }
        assert(h < 0x8000_0000_0000_0000);
        assert(h as int == half_correction(2 * abs(world_position as int), cell_size as int));
    }
    if world_position > 0 {
        assert(h as int * sign(world_position as int) == h) by (nonlinear_arith)
            requires
                sign(world_position as int) == 1,
        ;
        h as i64
    } else if world_position < 0 {
        assert(h as int * sign(world_position as int) == -(h as int)) by (nonlinear_arith)
            requires
                sign(world_position as int) == -1,
        ;
        (0i128 - h as i128) as i64
    } else {
        0
    }
}

/// The grid index along one axis: the position in half cells, rounded toward
/// zero, less the centering correction of `calculate_value`.
pub fn world_to_cell(world_position: i64, cell_size: u32) -> (r: i64)
    requires
        cell_size >= 2,
    ensures
        r == cell_of(world_position as int, cell_size as int),
{
    let a: u128 = if world_position < 0 {
        (0i128 - world_position as i128) as u128
    } else {
        world_position as u128
    };
    let c: u128 = cell_size as u128;
    let g: u128 = (2 * a) / c;
    let k: i64 = calculate_value(world_position, cell_size);
    proof {
        lemma_cell_closed_form(world_position as int, cell_size as int);
        lemma_div_is_ordered_by_denominator(2 * a as int, 2, c as int);
    }
    let signed_g: i128 = if world_position < 0 {
        0i128 - g as i128
    } else {
        g as i128
    };
    proof {
        let h = half_correction(2 * a as int, c as int);
        if world_position > 0 {
            assert(h * sign(world_position as int) == h) by (nonlinear_arith)
                requires
                    sign(world_position as int) == 1,
            ;
        } else if world_position < 0 {
            assert(h * sign(world_position as int) == -h) by (nonlinear_arith)
                requires
                    sign(world_position as int) == -1,
            ;
        }
    }
    (signed_g - k as i128) as i64
}

/// `cell_of` as the sign of the position times a nonnegative magnitude.
proof fn lemma_cell_closed_form(p: int, c: int)
    requires
        c > 0,
    ensures
        correction(p, c) == half_correction(2 * abs(p), c) * sign(p),
        div_toward_zero(2 * p, c) == sign(p) * ((2 * abs(p)) / c),
        0 <= half_correction(2 * abs(p), c) <= (2 * abs(p)) / c,
        2 * abs(p) >= c ==> half_correction(2 * abs(p), c) < (2 * abs(p)) / c,
        cell_of(p, c) == sign(p) * ((2 * abs(p)) / c - half_correction(2 * abs(p), c)),
{
    let a = 2 * abs(p);
    let g = a / c;
    let h = half_correction(a, c);
    lemma_correction_closed_form(p, c);
    if p == 0 {
        assert(0int / c == 0);
    }
    if a <= c {
        if a >= c {
            lemma_div_by_self(c);
        } else {
            lemma_div_pos_is_pos(a, c);
        }
    } else {
        let q = (a - 1) / c;
        lemma_div_is_ordered(a - 1, a, c);
        lemma_div_is_ordered(c, a - 1, c);
        lemma_div_by_self(c);
        assert(q / 2 < q);
    }
    assert(sign(p) * (g - h) == sign(p) * g - h * sign(p)) by (nonlinear_arith);
}

/// Grid cells keep the side of the origin that the position is on: the
/// origin maps to cell 0, a nonzero cell has the sign of the position, and
/// from half a cell away from the origin on, the cell's sign is exactly the
/// position's.
pub proof fn lemma_cell_keeps_sign(p: int, cell_size: int)
    requires
        cell_size > 0,
    ensures
        p == 0 ==> cell_of(p, cell_size) == 0,
        cell_of(p, cell_size) != 0 ==> sign(cell_of(p, cell_size)) == sign(p),
        2 * abs(p) >= cell_size ==> sign(cell_of(p, cell_size)) == sign(p),
{
    lemma_cell_closed_form(p, cell_size);
    let m = (2 * abs(p)) / cell_size - half_correction(2 * abs(p), cell_size);
    assert(m >= 0);
    if p > 0 {
        assert(sign(p) * m == m) by (nonlinear_arith)
            requires
                sign(p) == 1,
        ;
    } else if p < 0 {
        assert(sign(p) * m == -m) by (nonlinear_arith)
            requires
                sign(p) == -1,
        ;
    } else {
        assert(sign(p) * m == 0) by (nonlinear_arith)
            requires
                sign(p) == 0,
        ;
    }
}

/// Cells are symmetric about the origin: mirroring a position mirrors its
/// cell.
pub proof fn lemma_cell_symmetric(p: int, cell_size: int)
    requires
        cell_size > 0,
    ensures
        cell_of(-p, cell_size) == -cell_of(p, cell_size),
{
    lemma_cell_closed_form(p, cell_size);
    lemma_cell_closed_form(-p, cell_size);
    let m = (2 * abs(p)) / cell_size - half_correction(2 * abs(p), cell_size);
    assert(abs(-p) == abs(p));
    assert(sign(-p) == -sign(p));
    assert(sign(-p) * m == -(sign(p) * m)) by (nonlinear_arith)
        requires
            sign(-p) == -sign(p),
    ;
}

} // verus!
