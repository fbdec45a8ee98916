use radiation_sim::constants::PPM;
use radiation_sim::data_reading::{Compound, CurveSet, Substance, SubstanceData};
use radiation_sim::material::MaterialData;

fn bare_compound(name: &str, density: u64) -> Compound {
    Compound {
        symbol: name.to_owned(),
        name: name.to_owned(),
        density,
        stopping_powers: CurveSet { alpha: None, electron: None, gamma: None },
        is_absorber: false,
    }
}

fn two_compound_catalog() -> SubstanceData {
    SubstanceData {
        elements: vec![],
        compounds: vec![bare_compound("A", 2_000_000), bare_compound("B", 4_000_000)],
        radiators: vec![],
        absorbers: vec![],
    }
}

/// Mixture resolution: weights 0.3 and 0.7; a draw of 0.2 lands in the
/// first part, a draw of 0.5 in the second.
#[test]
fn mixture_resolution() {
    let a = Substance::Compound { compound: 0 };
    let b = Substance::Compound { compound: 1 };
    let mixture = MaterialData { parts: vec![(300_000, a), (700_000, b)] };
    assert_eq!(mixture.resolve(200_000), a);
    assert_eq!(mixture.resolve(500_000), b);
}

/// Resolution boundaries: the first part catches draws strictly below its
/// weight; the last part catches everything at or beyond the total.
#[test]
fn mixture_resolution_boundaries() {
    let a = Substance::Compound { compound: 0 };
    let b = Substance::Compound { compound: 1 };
    let mixture = MaterialData { parts: vec![(300_000, a), (700_000, b)] };
    assert_eq!(mixture.resolve(0), a);
    assert_eq!(mixture.resolve(299_999), a);
    assert_eq!(mixture.resolve(300_000), b);
    assert_eq!(mixture.resolve(999_999), b);
}

/// The weighted mean density of a normalized mixture.
#[test]
fn mixture_average_density() {
    let data = two_compound_catalog();
    let a = Substance::Compound { compound: 0 };
    let b = Substance::Compound { compound: 1 };
    let mixture = MaterialData { parts: vec![(250_000, a), (750_000, b)] };
    // 0.25 * 2e6 + 0.75 * 4e6 = 3.5e6 mg/m^3
    assert_eq!(mixture.average_density(&data), 3_500_000);
}

/// A single-part mixture always resolves to its only substance, whatever
/// the internal draw turns out to be.
#[test]
fn single_part_mixture_always_resolves() {
    let a = Substance::Compound { compound: 0 };
    let mixture = MaterialData { parts: vec![(PPM, a)] };
    for _ in 0..200 {
        assert_eq!(mixture.pick_substance(), a);
    }
}

/// Over many internal draws a 30/70 mixture picks both parts, roughly in
/// proportion.
#[test]
fn mixture_pick_proportions() {
    fastrand::seed(42);
    let a = Substance::Compound { compound: 0 };
    let b = Substance::Compound { compound: 1 };
    let mixture = MaterialData { parts: vec![(300_000, a), (700_000, b)] };
    let mut count_a = 0u64;
    let n = 100_000u64;
    for _ in 0..n {
        if mixture.pick_substance() == a {
            count_a += 1;
        }
    }
    let fraction = count_a as f64 / n as f64;
    assert!((fraction - 0.3).abs() < 0.01, "fraction {}", fraction);
}
