//! Air density as a function of altitude.
//!
//! Above the Karman line the air is taken to be a vacuum. Between sea level
//! and the Karman line the density is a step function over bands ten
//! kilometres wide. At and below sea level the density follows the
//! barometric formula and the ideal gas law.

use crate::units::magnitude_of;
use vstd::arithmetic::div_mod::lemma_fundamental_div_mod_converse;
use vstd::prelude::*;

verus! {

/// The Karman line, 100 km, in micrometres.
pub const KARMAN_LINE: i64 = 100_000_000_000;

/// The width of one band of the density table, 10 km, in micrometres.
pub const BAND_WIDTH: i64 = 10_000_000_000;

/// The number of samples in the density table.
pub const BANDS: usize = 11;

/// Pressure at sea level, in pascal.
pub const SEA_LEVEL_PRESSURE: u64 = 101_325;

/// Molar mass of air, in units of 10^-5 kg/mol.
pub const MOLAR_MASS: u64 = 2_897;

/// The ideal gas constant, in units of 10^-3 J/(mol K).
pub const GAS_CONSTANT: u64 = 8_314;

/// The temperature of the air column, in kelvin.
pub const TEMPERATURE: u64 = 288;

/// The fall of the barometric base per metre of altitude, in units of 10^-10.
pub const LAPSE: u64 = 225_577;

/// A pressure ratio of one, in parts per billion.
pub const UNIT_RATIO: u64 = 1_000_000_000;

/// What is known of the air at an altitude.
#[derive(Clone, Copy, Debug, PartialEq, Eq, Structural)]
pub enum AirDensity {
    /// The density, in micrograms per cubic metre.
    Known(u128),
    /// Below sea level. The pressure is the sea-level pressure times `base`
    /// raised to the power 5.25588, where `base` is in parts per billion;
    /// [`barometric_density`] turns that pressure ratio into a density.
    Barometric { base: u64 },
}

/// The density table: the sample for each band, lowest band first.
pub open spec fn density_table() -> Seq<u64> {
    seq![
        1_220_000_000u64,
        413_000_000u64,
        88_900_000u64,
        18_400_000u64,
        4_000_000u64,
        1_030_000u64,
        310_000u64,
        83_000u64,
        18_500u64,
        4_120u64,
        0u64,
    ]
}

/// The density of air at sea-level pressure times `ratio`, by the ideal gas law.
pub open spec fn ideal_gas_density(ratio: int) -> int {
    ratio * (SEA_LEVEL_PRESSURE * MOLAR_MASS) / (GAS_CONSTANT * TEMPERATURE * 100)
}

/// The density at sea level.
pub open spec fn sea_level_density() -> int {
    ideal_gas_density(UNIT_RATIO as int)
}

/// The base of the barometric formula at an `altitude` below sea level, in
/// parts per billion: one plus 2.25577e-5 per metre of depth.
pub open spec fn pressure_base(altitude: int) -> int {
    UNIT_RATIO + LAPSE * (-altitude) / 10_000_000
}

/// The density at an altitude at or above sea level: nothing above the
/// Karman line, the sample of the band from there down, and at sea level
/// the ideal gas density at sea-level pressure, which is what the
/// barometric formula gives for a base of one.
pub open spec fn density_above(altitude: int) -> int {
    if altitude > KARMAN_LINE {
        0
    } else if altitude > 0 {
        density_table()[altitude / (BAND_WIDTH as int)] as int
    } else {
        sea_level_density()
    }
}

/// What is known of the air at `altitude`.
pub open spec fn air_at(altitude: int) -> AirDensity {
    if altitude >= 0 {
        AirDensity::Known(density_above(altitude) as u128)
    } else {
        AirDensity::Barometric { base: pressure_base(altitude) as u64 }
    }
}

/// The sample of the density table for `band`.
fn band_density(band: usize) -> (rho: u128)
    requires
        band < BANDS,
    ensures
        rho == density_table()[band as int],
{
    let table: [u128; 11] = [
        1_220_000_000,
        413_000_000,
        88_900_000,
        18_400_000,
        4_000_000,
        1_030_000,
        310_000,
        83_000,
        18_500,
        4_120,
        0,
    ];
    table[band]
}

/// The density of air at sea-level pressure times `ratio` (parts per
/// billion), by the ideal gas law; `None` when it does not fit in 128 bits.
pub fn barometric_density(ratio: u128) -> (rho: Option<u128>)
    ensures
        rho.is_some() <==> ideal_gas_density(ratio as int) <= u128::MAX,
        rho.is_some() ==> rho.unwrap() == ideal_gas_density(ratio as int),
{
    let numerator: u128 = 293_538_525;
    let denominator: u128 = 239_443_200;
    assert(numerator == SEA_LEVEL_PRESSURE * MOLAR_MASS);
    assert(denominator == GAS_CONSTANT * TEMPERATURE * 100);
    let whole: u128 = ratio / denominator;
    let rest: u128 = ratio % denominator;
    let part: u128 = rest * numerator / denominator;
    proof {
        let low = (rest * numerator) % (denominator as int);
        assert(ratio * numerator == (whole * numerator + part) * denominator + low)
            by (nonlinear_arith)
            requires
                ratio == denominator * whole + rest,
                rest * numerator == denominator * part + low,
        ;
        lemma_fundamental_div_mod_converse(
            ratio * numerator,
            denominator as int,
            whole * numerator + part,
            low,
        );
    }
    match whole.checked_mul(numerator) {
        Some(product) => product.checked_add(part),
        None => None,
    }
}

/// The air density at `altitude`.
///
/// Above the Karman line it is zero. From there down to, but not at, sea
/// level it is the sample of the band that holds the altitude. At sea level
/// it is the ideal gas density at sea-level pressure. Below sea level the
/// base of the barometric formula is handed back instead.
pub fn density(altitude: i64) -> (air: AirDensity)
    ensures
        air == air_at(altitude as int),
{
    if altitude > KARMAN_LINE {
        AirDensity::Known(0)
    } else if altitude > 0 {
        let band: i64 = altitude / BAND_WIDTH;
        AirDensity::Known(band_density(band as usize))
    } else if altitude == 0 {
        proof {
            lemma_sea_level_density();
        }
        AirDensity::Known(1_225_921_324)
    } else {
        let depth: u128 = magnitude_of(altitude) as u128;
        let rise: u128 = (LAPSE as u128) * depth / 10_000_000;
        AirDensity::Barometric { base: (UNIT_RATIO as u128 + rise) as u64 }
    }
}

/// The density at sea level is 1.225921324 kg per cubic metre, within one
/// per cent of 1.225.
pub proof fn lemma_sea_level_density()
    ensures
        sea_level_density() == 1_225_921_324,
        100 * magnitude_gap(sea_level_density(), 1_225_000_000) <= 1_225_000_000,
{
    assert(SEA_LEVEL_PRESSURE * MOLAR_MASS == 293_538_525);
    assert(GAS_CONSTANT * TEMPERATURE * 100 == 239_443_200);
    assert(UNIT_RATIO * 293_538_525 == 1_225_921_324 * 239_443_200 + 233203200);
    assert((1_225_921_324 * 239_443_200 + 233203200) / 239_443_200 == 1_225_921_324);
}

/// The distance between two numbers.
pub open spec fn magnitude_gap(a: int, b: int) -> int {
    if a >= b {
        a - b
    } else {
        b - a
    }
}

/// At and below sea level the base of the barometric formula is at least
/// one, so its power has a value; at sea level it is one.
pub proof fn lemma_pressure_base_at_least_one(altitude: int)
    requires
        altitude <= 0,
    ensures
        pressure_base(altitude) >= UNIT_RATIO,
        pressure_base(0) == UNIT_RATIO,
{
}

/// Above the Karman line the air has no density.
pub proof fn lemma_vacuum_above_karman_line(altitude: int)
    requires
        altitude > KARMAN_LINE,
    ensures
        density_above(altitude) == 0,
        air_at(altitude) == AirDensity::Known(0),
{
}

/// Between sea level and the Karman line the density is the sample of the
/// band that holds the altitude.
pub proof fn lemma_density_is_band_sample(altitude: int)
    requires
        0 < altitude <= KARMAN_LINE,
    ensures
        0 <= altitude / (BAND_WIDTH as int) < BANDS,
        density_above(altitude) == density_table()[altitude / (BAND_WIDTH as int)],
{
}

/// The samples of the density table do not rise with the band.
pub proof fn lemma_table_non_increasing(i: int, j: int)
    requires
        0 <= i <= j < BANDS,
    ensures
        density_table()[i] >= density_table()[j],
{
}

/// From sea level up the density does not rise with altitude.
pub proof fn lemma_density_non_increasing(low: int, high: int)
    requires
        0 <= low <= high,
    ensures
        density_above(low) >= density_above(high),
{
    lemma_sea_level_density();
    if high > KARMAN_LINE {
    } else if low > 0 {
        let i = low / (BAND_WIDTH as int);
        let j = high / (BAND_WIDTH as int);
        lemma_table_non_increasing(i, j);
    } else if high > 0 {
        let j = high / (BAND_WIDTH as int);
        lemma_table_non_increasing(0, j);
    }
}

} // verus!
