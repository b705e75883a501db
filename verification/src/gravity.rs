//! Newtonian gravity and the mass of the Earth below an altitude.

use crate::units::{
    lemma_toward_zero_bounds, magnitude, magnitude_of, mul_div, toward_zero, PI_DEN, PI_NUM,
};
use vstd::arithmetic::div_mod::{
    lemma_div_denominator, lemma_div_is_ordered, lemma_div_multiples_vanish,
    lemma_div_multiples_vanish_quotient, lemma_fundamental_div_mod,
    lemma_fundamental_div_mod_converse,
};
use vstd::prelude::*;

verus! {

/// The mass of the Earth, 5.97e24 kg, in grams.
pub const EARTH_MASS: u128 = 5_970_000_000_000_000_000_000_000_000;

/// The mean radius of the Earth, 6367 km, in micrometres.
pub const EARTH_RADIUS: i64 = 6_367_000_000_000;

/// The mean radius of the Earth in millimetres.
pub const EARTH_RADIUS_MM: i64 = 6_367_000_000;

/// The gravitational constant, 6.67e-11 m^3/(kg s^2), in femtonewton
/// square millimetres per square gram.
pub const GRAVITY: u128 = 66_700;

/// A force as an exact quotient: `whole + remainder / divisor`
/// femtonewtons, with the remainder less than the divisor.
#[derive(Clone, Copy, Debug, PartialEq, Eq, Structural)]
pub struct Force {
    /// The whole femtonewtons of the force.
    pub whole: u128,
    /// What the whole femtonewtons leave of the force, in parts of `divisor`.
    pub remainder: u128,
    /// The parts in one femtonewton: the square of the distance.
    pub divisor: u128,
}

/// The distance from the centre of the Earth at `altitude` (micrometres),
/// in millimetres, rounded down. It is negative beyond the centre.
pub open spec fn radius_at(altitude: int) -> int {
    (altitude + EARTH_RADIUS) / 1_000
}

/// The force with which two masses (grams) attract each other, times the
/// square of their distance: `G * m1 * m2`, in femtonewton square
/// millimetres. It has no rounding.
pub open spec fn gravity_product(m1: int, m2: int) -> int {
    GRAVITY * m1 * m2
}

/// The force with which two masses (grams) attract each other at distance
/// `d` (millimetres), in whole femtonewtons: `G * m1 * m2 / d^2`, rounded
/// down.
pub open spec fn gravity_force_value(m1: int, m2: int, d: int) -> int {
    gravity_product(m1, m2) / (d * d)
}

/// Whether the force between two masses at distance `d` has a value that
/// can be held: the distance is not zero and the whole femtonewtons fit in
/// 128 bits.
pub open spec fn gravity_representable(m1: int, m2: int, d: int) -> bool {
    &&& d != 0
    &&& gravity_force_value(m1, m2, d) <= u128::MAX
}

/// The force between two masses at distance `d`, as an exact quotient.
pub open spec fn gravity_force_exact(m1: int, m2: int, d: int) -> Force {
    Force {
        whole: gravity_force_value(m1, m2, d) as u128,
        remainder: (gravity_product(m1, m2) % (d * d)) as u128,
        divisor: (d * d) as u128,
    }
}

/// `mass` scaled by the ratio of `r` to the radius of the Earth, rounded down.
pub open spec fn scaled(mass: int, r: int) -> int {
    mass * r / (EARTH_RADIUS_MM as int)
}

/// The mass of the Earth that attracts an object at `altitude` (micrometres).
///
/// Above the surface it is the whole mass. At and below the surface it is
/// the mass of the sphere under the object, for an Earth of uniform
/// density: the whole mass scaled three times by the ratio of the radii,
/// that is, by the ratio of the volumes of the two spheres (see
/// [`sphere_volume`]).
pub open spec fn enclosed_mass(altitude: int) -> int {
    if altitude > 0 {
        EARTH_MASS as int
    } else {
        let r = magnitude(radius_at(altitude));
        scaled(scaled(scaled(EARTH_MASS as int, r), r), r)
    }
}

/// Whether the enclosed mass at `altitude` can be computed in 128 bits.
pub open spec fn enclosed_mass_representable(altitude: int) -> bool {
    altitude > 0 || {
        let r = magnitude(radius_at(altitude));
        &&& EARTH_MASS * r <= u128::MAX
        &&& scaled(EARTH_MASS as int, r) * r <= u128::MAX
        &&& scaled(scaled(EARTH_MASS as int, r), r) * r <= u128::MAX
    }
}

/// The distance from the centre of the Earth at `altitude`.
pub fn radius(altitude: i64) -> (r: i64)
    ensures
        r == radius_at(altitude as int),
{
    let sum: i128 = altitude as i128 + EARTH_RADIUS as i128;
    if sum >= 0 {
        (sum / 1_000) as i64
    } else {
        let up: i128 = (999 - sum) / 1_000;
        (-up) as i64
    }
}

/// The gravitational force between two masses, `G * m1 * m2 / d^2`, without
/// loss: the whole femtonewtons and what they leave of the quotient.
///
/// `None` when the distance is zero or the whole femtonewtons do not fit in
/// 128 bits.
pub fn gravity_force(m1: u128, m2: u128, d: i64) -> (force: Option<Force>)
    ensures
        force.is_some() <==> gravity_representable(m1 as int, m2 as int, d as int),
        force.is_some() ==> force.unwrap() == gravity_force_exact(m1 as int, m2 as int, d as int),
{
    if d == 0 {
        return None;
    }
    let r: u128 = magnitude_of(d) as u128;
    proof {
        assert(r * r == d * d) by (nonlinear_arith)
            requires
                r == magnitude(d as int),
        ;
        assert(0 < r * r <= 0x4000_0000_0000_0000_0000_0000_0000_0000) by (nonlinear_arith)
            requires
                0 < r <= 0x8000_0000_0000_0000,
        ;
    }
    let square: u128 = r * r;
    let ghost masses = m1 * m2;
    let ghost top = gravity_product(m1 as int, m2 as int);
    proof {
        assert(masses >= 0) by (nonlinear_arith)
            requires
                masses == m1 * m2,
                m1 >= 0,
                m2 >= 0,
        ;
        assert(top == GRAVITY * masses) by (nonlinear_arith)
            requires
                top == GRAVITY * m1 * m2,
                masses == m1 * m2,
        ;
        // the force is at least the quotient of the masses alone
        lemma_div_is_ordered(masses, top, square as int);
    }
    let (whole_masses, rest_masses) = match mul_div(m1, m2, square) {
        Some(pair) => pair,
        None => {
            return None;
        },
    };
    proof {
        lemma_fundamental_div_mod(masses, square as int);
        // what the masses leave, times `G`, by the square is less than `G`
        assert(GRAVITY * rest_masses < GRAVITY * square) by (nonlinear_arith)
            requires
                rest_masses < square,
        ;
        assert(GRAVITY * rest_masses >= 0) by (nonlinear_arith)
            requires
                rest_masses >= 0,
        ;
        lemma_div_is_ordered(GRAVITY * rest_masses, GRAVITY * square, square as int);
        lemma_div_multiples_vanish(GRAVITY as int, square as int);
        assert(GRAVITY * square == square * GRAVITY) by (nonlinear_arith);
    }
    let (whole_rest, remainder) = match mul_div(GRAVITY, rest_masses, square) {
        Some(pair) => pair,
        None => {
            return None;
        },
    };
    proof {
        let low = GRAVITY * rest_masses;
        lemma_fundamental_div_mod(low, square as int);
        assert(top == (GRAVITY * whole_masses + whole_rest) * square + remainder)
            by (nonlinear_arith)
            requires
                top == GRAVITY * masses,
                masses == square * whole_masses + rest_masses,
                low == GRAVITY * rest_masses,
                low == square * whole_rest + remainder,
        ;
        lemma_fundamental_div_mod_converse(
            top,
            square as int,
            GRAVITY * whole_masses + whole_rest,
            remainder as int,
        );
    }
    let scaled: u128 = match whole_masses.checked_mul(GRAVITY) {
        Some(x) => x,
        None => {
            return None;
        },
    };
    match scaled.checked_add(whole_rest) {
        Some(whole) => Some(Force { whole, remainder, divisor: square }),
        None => None,
    }
}

/// The volume of a sphere of radius `radius` (millimetres), in cubic
/// millimetres, rounded toward zero: `4/3 * pi * radius^3`. It has the sign
/// of the radius.
pub open spec fn sphere_volume_value(radius: int) -> int {
    toward_zero(4 * PI_NUM * radius * radius * radius, 3 * PI_DEN)
}

/// The volume of a sphere, `4/3 * pi * radius^3`; `None` when it does not
/// fit in 128 bits.
pub fn sphere_volume(radius: i64) -> (volume: Option<i128>)
    ensures
        volume.is_some() <==> i128::MIN < sphere_volume_value(radius as int) <= i128::MAX,
        volume.is_some() ==> volume.unwrap() == sphere_volume_value(radius as int),
{
    let r: u128 = magnitude_of(radius) as u128;
    proof {
        assert(0 <= r * r <= 0x4000_0000_0000_0000_0000_0000_0000_0000) by (nonlinear_arith)
            requires
                0 <= r <= 0x8000_0000_0000_0000,
        ;
        assert(4 * PI_NUM * r <= 4 * PI_NUM * 0x8000_0000_0000_0000) by (nonlinear_arith)
            requires
                r <= 0x8000_0000_0000_0000,
        ;
    }
    let first: u128 = 4 * PI_NUM * r;
    let square: u128 = r * r;
    let divisor: u128 = 3 * PI_DEN;
    let ghost top = 4 * PI_NUM * radius * radius * radius;
    let ghost size = first * square;
    proof {
        assert(size >= 0) by (nonlinear_arith)
            requires
                size == first * square,
                first >= 0,
                square >= 0,
        ;
        assert(top == if radius >= 0 {
            size
        } else {
            -size
        }) by (nonlinear_arith)
            requires
                top == 4 * PI_NUM * radius * radius * radius,
                size == first * square,
                first == 4 * PI_NUM * r,
                square == r * r,
                r == magnitude(radius as int),
        ;
        lemma_toward_zero_bounds(top, divisor as int);
    }
    match mul_div(first, square, divisor) {
        Some((size_out, _)) => {
            if size_out > i128::MAX as u128 {
                None
            } else if radius >= 0 {
                Some(size_out as i128)
            } else {
                Some(-(size_out as i128))
            }
        },
        None => None,
    }
}

/// One stage of the enclosed mass: `mass * r / EARTH_RADIUS_MM`.
fn scale_by_radius(mass: u128, r: u128) -> (out: Option<u128>)
    ensures
        out.is_some() <==> mass * r <= u128::MAX,
        out.is_some() ==> out.unwrap() == scaled(mass as int, r as int),
{
    match mass.checked_mul(r) {
        Some(product) => Some(product / (EARTH_RADIUS_MM as u128)),
        None => None,
    }
}

/// The mass of the Earth that attracts an object at `altitude`; `None`
/// when it does not fit the machine arithmetic, which can happen only far
/// beyond the centre.
pub fn earth_mass_enclosed(altitude: i64) -> (mass: Option<u128>)
    ensures
        mass.is_some() <==> enclosed_mass_representable(altitude as int),
        mass.is_some() ==> mass.unwrap() == enclosed_mass(altitude as int),
{
    if altitude > 0 {
        return Some(EARTH_MASS);
    }
    let r: u128 = magnitude_of(radius(altitude)) as u128;
    let first: u128 = match scale_by_radius(EARTH_MASS, r) {
        Some(x) => x,
        None => {
            return None;
        },
    };
    let second: u128 = match scale_by_radius(first, r) {
        Some(x) => x,
        None => {
            return None;
        },
    };
    scale_by_radius(second, r)
}

/// The exact quotient loses nothing: its whole femtonewtons times the
/// divisor, with the remainder, are `G * m1 * m2`.
pub proof fn lemma_gravity_exact(m1: int, m2: int, d: int)
    requires
        m1 >= 0,
        m2 >= 0,
        d != 0,
    ensures
        gravity_force_value(m1, m2, d) * (d * d) + gravity_product(m1, m2) % (d * d)
            == gravity_product(m1, m2),
        0 <= gravity_product(m1, m2) % (d * d) < d * d,
        gravity_force_value(m1, m2, d) >= 0,
{
    let top = gravity_product(m1, m2);
    let bottom = d * d;
    assert(bottom > 0) by (nonlinear_arith)
        requires
            bottom == d * d,
            d != 0,
    ;
    assert(top >= 0) by (nonlinear_arith)
        requires
            top == GRAVITY * m1 * m2,
            m1 >= 0,
            m2 >= 0,
    ;
    lemma_fundamental_div_mod(top, bottom);
    assert(bottom * (top / bottom) == (top / bottom) * bottom) by (nonlinear_arith);
    lemma_div_is_ordered(0, top, bottom);
}

/// Gravity does not tell its two masses apart.
pub proof fn lemma_gravity_symmetric(m1: int, m2: int, d: int)
    ensures
        gravity_product(m1, m2) == gravity_product(m2, m1),
        gravity_force_value(m1, m2, d) == gravity_force_value(m2, m1, d),
        gravity_representable(m1, m2, d) == gravity_representable(m2, m1, d),
        gravity_force_exact(m1, m2, d) == gravity_force_exact(m2, m1, d),
{
    assert(GRAVITY * m1 * m2 == GRAVITY * m2 * m1) by (nonlinear_arith);
}

/// Gravity falls with the square of the distance: at twice the distance the
/// same product of the masses is divided by four times the square, so the
/// whole femtonewtons are a quarter.
pub proof fn lemma_gravity_inverse_square(m1: int, m2: int, d: int)
    requires
        m1 >= 0,
        m2 >= 0,
        d != 0,
    ensures
        (2 * d) * (2 * d) == 4 * (d * d),
        gravity_force_value(m1, m2, 2 * d) == gravity_force_value(m1, m2, d) / 4,
{
    let n = gravity_product(m1, m2);
    let c = d * d;
    assert(n >= 0) by (nonlinear_arith)
        requires
            n == GRAVITY * m1 * m2,
            m1 >= 0,
            m2 >= 0,
    ;
    assert(c > 0) by (nonlinear_arith)
        requires
            c == d * d,
            d != 0,
    ;
    assert((2 * d) * (2 * d) == c * 4) by (nonlinear_arith)
        requires
            c == d * d,
    ;
    lemma_div_denominator(n, c, 4);
}

/// Gravity is in proportion to the masses: without rounding, twice a mass
/// is twice the force.
pub proof fn lemma_gravity_doubles_with_mass(m1: int, m2: int)
    ensures
        gravity_product(2 * m1, m2) == 2 * gravity_product(m1, m2),
        gravity_product(m1, 2 * m2) == 2 * gravity_product(m1, m2),
{
    assert(GRAVITY * (2 * m1) * m2 == 2 * (GRAVITY * m1 * m2)) by (nonlinear_arith);
    assert(GRAVITY * m1 * (2 * m2) == 2 * (GRAVITY * m1 * m2)) by (nonlinear_arith);
}

/// Gravity is in proportion to the mass that it acts on: the force on `m`
/// times a mass, by `m`, is the force on that mass. So every mass falls
/// alike, and the force on one gram, in femtonewtons, is the acceleration
/// of any mass in picometres per second squared.
pub proof fn lemma_gravity_proportional_to_mass(mass: int, m: int, other: int, d: int)
    requires
        mass >= 0,
        m > 0,
        other >= 0,
        d != 0,
    ensures
        gravity_force_value(mass * m, other, d) / m == gravity_force_value(mass, other, d),
{
    let top = GRAVITY * mass * other;
    let bottom = d * d;
    assert(bottom > 0) by (nonlinear_arith)
        requires
            bottom == d * d,
            d != 0,
    ;
    assert(top >= 0) by (nonlinear_arith)
        requires
            top == GRAVITY * mass * other,
            mass >= 0,
            other >= 0,
    ;
    assert(GRAVITY * (mass * m) * other == m * top) by (nonlinear_arith)
        requires
            top == GRAVITY * mass * other,
    ;
    assert(m * top >= 0) by (nonlinear_arith)
        requires
            m > 0,
            top >= 0,
    ;
    assert(bottom * m == m * bottom) by (nonlinear_arith);
    lemma_div_denominator(m * top, bottom, m);
    lemma_div_multiples_vanish_quotient(m, top, bottom);
}

/// Above the surface the whole Earth attracts.
pub proof fn lemma_whole_mass_above_surface(altitude: int)
    requires
        altitude > 0,
    ensures
        enclosed_mass(altitude) == EARTH_MASS,
        enclosed_mass_representable(altitude),
{
}

/// Scaling by a radius inside the Earth does not grow a mass, and shrinks
/// one that is not zero when the radius is short of the surface.
proof fn lemma_scaled_bounds(mass: int, r: int)
    requires
        0 <= mass,
        0 <= r <= EARTH_RADIUS_MM,
    ensures
        0 <= scaled(mass, r) <= mass,
        mass * r <= mass * EARTH_RADIUS_MM,
        (r < EARTH_RADIUS_MM && mass > 0) ==> scaled(mass, r) < mass,
{
    let big = EARTH_RADIUS_MM as int;
    assert(0 <= mass * r <= mass * big) by (nonlinear_arith)
        requires
            0 <= mass,
            0 <= r <= big,
    ;
    assert(0 <= (mass * r) / big <= mass) by (nonlinear_arith)
        requires
            0 <= mass * r <= mass * big,
            big > 0,
    ;
    if r < big && mass > 0 {
        assert(mass * r <= mass * big - mass) by (nonlinear_arith)
            requires
                0 < mass,
                0 <= r < big,
        ;
        assert((mass * r) / big < mass) by (nonlinear_arith)
            requires
                0 <= mass * r <= mass * big - mass,
                mass > 0,
                big > 0,
        ;
    }
}

/// Between the surface and the centre less than the whole Earth attracts.
pub proof fn lemma_less_mass_below_surface(altitude: int)
    requires
        -EARTH_RADIUS < altitude < 0,
    ensures
        0 <= enclosed_mass(altitude) < EARTH_MASS,
        enclosed_mass_representable(altitude),
{
    let r = magnitude(radius_at(altitude));
    assert(0 <= r < EARTH_RADIUS_MM);
    let whole = EARTH_MASS as int;
    lemma_scaled_bounds(whole, r);
    let first = scaled(whole, r);
    lemma_scaled_bounds(first, r);
    let second = scaled(first, r);
    lemma_scaled_bounds(second, r);
    assert(whole * EARTH_RADIUS_MM <= u128::MAX);
    assert(first * EARTH_RADIUS_MM <= whole * EARTH_RADIUS_MM) by (nonlinear_arith)
        requires
            first <= whole,
    ;
    assert(second * EARTH_RADIUS_MM <= whole * EARTH_RADIUS_MM) by (nonlinear_arith)
        requires
            second <= whole,
    ;
}

/// At the centre of the Earth no mass attracts.
pub proof fn lemma_no_mass_at_centre()
    ensures
        enclosed_mass(-EARTH_RADIUS) == 0,
        enclosed_mass_representable(-(EARTH_RADIUS as int)),
{
    assert(radius_at(-(EARTH_RADIUS as int)) == 0);
    assert(scaled(EARTH_MASS as int, 0) == 0);
    assert(scaled(0, 0) == 0);
}

/// At the surface the whole Earth attracts, as just above it.
pub proof fn lemma_whole_mass_at_surface()
    ensures
        enclosed_mass(0) == EARTH_MASS,
        enclosed_mass_representable(0),
{
    assert(radius_at(0) == EARTH_RADIUS_MM);
    let whole = EARTH_MASS as int;
    let big = EARTH_RADIUS_MM as int;
    assert(whole * big / big == whole) by (nonlinear_arith)
        requires
            big > 0,
    ;
}

} // verus!
