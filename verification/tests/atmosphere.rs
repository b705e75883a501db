use olympus::atmosphere::{
    barometric_density, density, AirDensity, BANDS, BAND_WIDTH, KARMAN_LINE,
};
use olympus::units::{KILOGRAM_PER_CUBIC_METRE, KILOMETRE, METRE};

const TABLE: [u128; 11] = [
    1_220_000_000,
    413_000_000,
    88_900_000,
    18_400_000,
    4_000_000,
    1_030_000,
    310_000,
    83_000,
    18_500,
    4_120,
    0,
];

fn known(altitude: i64) -> u128 {
    match density(altitude) {
        AirDensity::Known(rho) => rho,
        AirDensity::Barometric { .. } => panic!("no closed form at {}", altitude),
    }
}

#[test]
fn density_is_zero_above_the_karman_line() {
    assert_eq!(density(KARMAN_LINE + 1), AirDensity::Known(0));
    assert_eq!(density(100 * KILOMETRE + METRE), AirDensity::Known(0));
    assert_eq!(density(573_851 * KILOMETRE), AirDensity::Known(0));
    assert_eq!(density(i64::MAX), AirDensity::Known(0));
}

#[test]
fn density_at_the_karman_line_is_the_last_sample() {
    assert_eq!(density(KARMAN_LINE), AirDensity::Known(0));
    assert_eq!(density(KARMAN_LINE - 1), AirDensity::Known(4_120));
}

#[test]
fn density_is_the_sample_of_the_band() {
    for band in 0..10i64 {
        let low = band * BAND_WIDTH;
        let expected = TABLE[band as usize];
        if band > 0 {
            assert_eq!(known(low), expected);
        }
        assert_eq!(known(low + 1), expected);
        assert_eq!(known(low + BAND_WIDTH / 2), expected);
        assert_eq!(known(low + BAND_WIDTH - 1), expected);
    }
    assert_eq!(known(45 * KILOMETRE), 4_000_000);
    assert_eq!(known(1), 1_220_000_000);
}

#[test]
fn the_table_has_a_sample_for_every_band_up_to_the_karman_line() {
    assert_eq!(BANDS, TABLE.len());
    assert_eq!((BANDS as i64 - 1) * BAND_WIDTH, KARMAN_LINE);
    for band in 1..BANDS {
        assert_eq!(known(band as i64 * BAND_WIDTH), TABLE[band]);
    }
}

#[test]
fn density_never_rises_with_altitude() {
    let mut last = known(0);
    let mut altitude: i64 = 0;
    while altitude <= 120 * KILOMETRE {
        let here = known(altitude);
        assert!(here <= last, "density rises at {}", altitude);
        last = here;
        altitude += 250 * METRE;
    }
    assert_eq!(last, 0);
}

#[test]
fn density_at_sea_level_is_that_of_an_ideal_gas() {
    let rho = known(0);
    assert_eq!(rho, 1_225_921_324);
    let nominal = 1_225 * KILOGRAM_PER_CUBIC_METRE as u128 / 1_000;
    assert!(rho.abs_diff(nominal) * 100 <= nominal);
    let as_float = rho as f64 / 1e9;
    assert!((as_float - 1.225).abs() / 1.225 < 0.01);
    assert!(rho > known(1));
}

#[test]
fn density_below_sea_level_hands_back_the_barometric_base() {
    assert_eq!(density(-1), AirDensity::Barometric { base: 1_000_000_000 });
    assert_eq!(density(-10 * METRE), AirDensity::Barometric { base: 1_000_225_577 });
    assert_eq!(density(-6_367 * KILOMETRE), AirDensity::Barometric { base: 144_624_875_900 });
    assert_eq!(density(i64::MIN), AirDensity::Barometric { base: 208_058_060_395_758_976 });
}

#[test]
fn barometric_density_scales_the_sea_level_density() {
    assert_eq!(barometric_density(1_000_000_000), Some(1_225_921_324));
    assert_eq!(barometric_density(2_000_000_000), Some(2_451_842_649));
    assert_eq!(barometric_density(1_125_000_000), Some(1_379_161_490));
    assert_eq!(barometric_density(0), Some(0));
}

#[test]
fn barometric_density_is_exact_where_the_product_leaves_128_bits() {
    assert_eq!(barometric_density(1 << 64), Some(22_614_256_936_297_180_541));
    let ratio = u128::MAX / 293_538_525 + 1;
    let whole = ratio / 239_443_200;
    let rest = ratio % 239_443_200;
    assert_eq!(
        barometric_density(ratio),
        Some(whole * 293_538_525 + rest * 293_538_525 / 239_443_200)
    );
}

#[test]
fn barometric_density_is_none_beyond_128_bits() {
    assert_eq!(
        barometric_density(277_572_760_982_987_335_971_499_818_642_906_794_633),
        Some(u128::MAX - 1)
    );
    assert_eq!(barometric_density(277_572_760_982_987_335_971_499_818_642_906_794_634), None);
    assert_eq!(barometric_density(u128::MAX), None);
}
