//! The drag of the air on a falling cube.

use crate::units::{magnitude, magnitude_of, toward_zero, PI_DEN, PI_NUM};
use vstd::prelude::*;

verus! {

/// The drag coefficient of a cube, 1.09, times one half, times 200.
pub const DRAG_NUM: u128 = 109;

/// The drag units in one piconewton. A drag unit is 5e-30 N: the force on
/// a face of one square micrometre at one millimetre per second in air of
/// one microgram per cubic metre is `DRAG_NUM` drag units.
pub const DRAG_UNITS: u128 = 200_000_000_000_000_000;

/// The units of viscosity, radius and speed in one piconewton.
pub const STOKES_SCALE: u128 = 1_000_000;

/// The drag on a cube of side `width` (micrometres) that moves at `speed`
/// (millimetres per second) through air of density `density` (micrograms
/// per cubic metre), in drag units: `0.5 * density * speed^2 * width^2 *
/// 1.09`. It has no rounding.
pub open spec fn drag_force_value(density: int, speed: int, width: int) -> int {
    DRAG_NUM * density * (speed * speed) * (width * width)
}

/// Whether the drag can be held: it fits in 128 bits.
pub open spec fn drag_representable(density: int, speed: int, width: int) -> bool {
    drag_force_value(density, speed, width) <= u128::MAX
}

/// The drag force `0.5 * density * speed^2 * width^2 * 1.09`, in drag units
/// and without rounding; `None` when it does not fit in 128 bits.
pub fn drag_force(density: u128, speed: i64, width: u64) -> (force: Option<u128>)
    ensures
        force.is_some() <==> drag_representable(density as int, speed as int, width as int),
        force.is_some() ==> force.unwrap() == drag_force_value(
            density as int,
            speed as int,
            width as int,
        ),
{
    let s: u128 = magnitude_of(speed) as u128;
    let w: u128 = width as u128;
    proof {
        assert(s * s == speed * speed) by (nonlinear_arith)
            requires
                s == magnitude(speed as int),
        ;
        assert(s * s <= 0x4000_0000_0000_0000_0000_0000_0000_0000) by (nonlinear_arith)
            requires
                s <= 0x8000_0000_0000_0000,
        ;
        assert(w * w <= 0xffff_ffff_ffff_ffff * 0xffff_ffff_ffff_ffff) by (nonlinear_arith)
            requires
                w <= 0xffff_ffff_ffff_ffff,
        ;
    }
    let s2: u128 = s * s;
    let w2: u128 = w * w;
    if density == 0 || s2 == 0 || w2 == 0 {
        proof {
            assert(DRAG_NUM * density * s2 * w2 == 0) by (nonlinear_arith)
                requires
                    density == 0 || s2 == 0 || w2 == 0,
            ;
        }
        return Some(0);
    }
    let rho: u128 = match density.checked_mul(DRAG_NUM) {
        Some(x) => x,
        None => {
            proof {
                assert(DRAG_NUM * density * s2 * w2 >= DRAG_NUM * density) by (nonlinear_arith)
                    requires
                        density >= 1,
                        s2 >= 1,
                        w2 >= 1,
                ;
            }
            return None;
        },
    };
    let flow: u128 = match rho.checked_mul(s2) {
        Some(x) => x,
        None => {
            proof {
                assert(rho * s2 * w2 >= rho * s2) by (nonlinear_arith)
                    requires
                        rho * s2 >= 0,
                        w2 >= 1,
                ;
            }
            return None;
        },
    };
    flow.checked_mul(w2)
}

/// The Stokes drag on a sphere of radius `radius` (micrometres) that moves
/// at `speed` (millimetres per second) through a fluid of viscosity
/// `viscosity` (nanopascal seconds), in piconewtons, rounded toward zero:
/// `6 * pi * viscosity * radius * speed`. It has the sign of the speed.
pub open spec fn stokes_force_value(viscosity: int, radius: int, speed: int) -> int {
    toward_zero(6 * PI_NUM * viscosity * radius * speed, PI_DEN * STOKES_SCALE)
}

/// Whether the Stokes drag can be computed: the magnitude of the numerator
/// of the quotient fits in 128 bits.
pub open spec fn stokes_representable(viscosity: int, radius: int, speed: int) -> bool {
    6 * PI_NUM * viscosity * radius * magnitude(speed) <= u128::MAX
}

/// The Stokes drag `6 * pi * viscosity * radius * speed` of slow, laminar
/// flow; `None` when it does not fit the machine arithmetic. The fall does
/// not use it.
pub fn stokes_force(viscosity: u64, radius: u64, speed: i64) -> (force: Option<i128>)
    ensures
        force.is_some() <==> stokes_representable(viscosity as int, radius as int, speed as int),
        force.is_some() ==> force.unwrap() == stokes_force_value(
            viscosity as int,
            radius as int,
            speed as int,
        ),
{
    let s: u128 = magnitude_of(speed) as u128;
    proof {
        assert(viscosity * radius <= 0xffff_ffff_ffff_ffff * 0xffff_ffff_ffff_ffff)
            by (nonlinear_arith)
            requires
                0 <= viscosity <= 0xffff_ffff_ffff_ffff,
                0 <= radius <= 0xffff_ffff_ffff_ffff,
        ;
    }
    let area: u128 = (viscosity as u128) * (radius as u128);
    let ghost top = 6 * PI_NUM * viscosity * radius * speed;
    let ghost size = 6 * PI_NUM * viscosity * radius * s;
    proof {
        assert(size == (6 * PI_NUM) * (area * s)) by (nonlinear_arith)
            requires
                size == 6 * PI_NUM * viscosity * radius * s,
                area == viscosity * radius,
        ;
        assert(top == if speed >= 0 {
            size
        } else {
            -size
        }) by (nonlinear_arith)
            requires
                top == 6 * PI_NUM * viscosity * radius * speed,
                size == 6 * PI_NUM * viscosity * radius * s,
                s == magnitude(speed as int),
        ;
        assert(size >= 0) by (nonlinear_arith)
            requires
                size == (6 * PI_NUM) * (area * s),
                area >= 0,
                s >= 0,
        ;
    }
    let flow: u128 = match area.checked_mul(s) {
        Some(x) => x,
        None => {
            proof {
                assert((6 * PI_NUM) * (area * s) >= area * s) by (nonlinear_arith)
                    requires
                        area * s >= 0,
                ;
            }
            return None;
        },
    };
    let numerator: u128 = match flow.checked_mul(6 * PI_NUM) {
        Some(x) => x,
        None => {
            return None;
        },
    };
    let divisor: u128 = 1_000_000_000_000_000_000_000;
    assert(divisor == PI_DEN * STOKES_SCALE);
    let size_out: u128 = numerator / divisor;
    if speed >= 0 {
        Some(size_out as i128)
    } else {
        Some(-(size_out as i128))
    }
}

/// Drag does not depend on the direction of the motion.
pub proof fn lemma_drag_ignores_direction(density: int, speed: int, width: int)
    ensures
        drag_force_value(density, speed, width) == drag_force_value(density, -speed, width),
        drag_representable(density, speed, width) == drag_representable(density, -speed, width),
{
    assert(speed * speed == (-speed) * (-speed)) by (nonlinear_arith);
}

/// At twice the speed the drag is four times as large.
pub proof fn lemma_drag_quadruples_with_twice_the_speed(density: int, speed: int, width: int)
    ensures
        drag_force_value(density, 2 * speed, width) == 4 * drag_force_value(density, speed, width),
{
    let rest = DRAG_NUM * density;
    let s2 = speed * speed;
    let w2 = width * width;
    assert((2 * speed) * (2 * speed) == 4 * s2) by (nonlinear_arith)
        requires
            s2 == speed * speed,
    ;
    assert(rest * (4 * s2) * w2 == 4 * (rest * s2 * w2)) by (nonlinear_arith);
}

/// On a cube of twice the width the drag is four times as large.
pub proof fn lemma_drag_quadruples_with_twice_the_width(density: int, speed: int, width: int)
    ensures
        drag_force_value(density, speed, 2 * width) == 4 * drag_force_value(density, speed, width),
{
    let rest = DRAG_NUM * density * (speed * speed);
    let w2 = width * width;
    assert((2 * width) * (2 * width) == 4 * w2) by (nonlinear_arith)
        requires
            w2 == width * width,
    ;
    assert(rest * (4 * w2) == 4 * (rest * w2)) by (nonlinear_arith);
}

/// In air of twice the density the drag is twice as large.
pub proof fn lemma_drag_doubles_with_twice_the_density(density: int, speed: int, width: int)
    ensures
        drag_force_value(2 * density, speed, width) == 2 * drag_force_value(density, speed, width),
{
    let s2 = speed * speed;
    let w2 = width * width;
    assert(DRAG_NUM * (2 * density) * s2 * w2 == 2 * (DRAG_NUM * density * s2 * w2))
        by (nonlinear_arith);
}

/// The drag is never negative in air of a density that is not negative.
pub proof fn lemma_drag_not_negative(density: int, speed: int, width: int)
    requires
        density >= 0,
    ensures
        drag_force_value(density, speed, width) >= 0,
{
    assert(DRAG_NUM * density * (speed * speed) * (width * width) >= 0) by (nonlinear_arith)
        requires
            density >= 0,
    ;
}

/// Still air, or no air, drags nothing.
pub proof fn lemma_no_drag_at_rest(density: int, speed: int, width: int)
    requires
        density == 0 || speed == 0,
    ensures
        drag_force_value(density, speed, width) == 0,
        drag_representable(density, speed, width),
{
    assert(DRAG_NUM * density * (speed * speed) * (width * width) == 0) by (nonlinear_arith)
        requires
            density == 0 || speed == 0,
    ;
}

} // verus!
