use radiation_sim::stopping::{curve_is_wf, pick_stopping_power};

/// The nearest-above lookup with flat extrapolation past the table's end.
#[test]
fn stopping_power_lookup() {
    let curve: Vec<(u64, u64)> = vec![(1, 10), (5, 20), (10, 5)];
    assert_eq!(pick_stopping_power(&curve, 0), 10);
    assert_eq!(pick_stopping_power(&curve, 3), 20);
    assert_eq!(pick_stopping_power(&curve, 10), 5);
    assert_eq!(pick_stopping_power(&curve, 7), 5);
}

/// Queries below the first sample and far beyond the last.
#[test]
fn stopping_power_lookup_edges() {
    let curve: Vec<(u64, u64)> = vec![(100, 7)];
    assert_eq!(pick_stopping_power(&curve, 0), 7);
    assert_eq!(pick_stopping_power(&curve, 99), 7);
    assert_eq!(pick_stopping_power(&curve, 100), 7);
    assert_eq!(pick_stopping_power(&curve, u64::MAX), 7);
}

/// Exact boundary behaviour: a sample counts only when strictly above the
/// query.
#[test]
fn stopping_power_strictly_above() {
    let curve: Vec<(u64, u64)> = vec![(2, 1), (4, 2), (6, 3)];
    assert_eq!(pick_stopping_power(&curve, 2), 2);
    assert_eq!(pick_stopping_power(&curve, 4), 3);
    assert_eq!(pick_stopping_power(&curve, 6), 3);
}

/// Curve well-formedness: non-empty and ascending by energy.
#[test]
fn curve_well_formedness() {
    let empty: Vec<(u64, u64)> = vec![];
    assert!(!curve_is_wf(&empty));
    let single: Vec<(u64, u64)> = vec![(5, 1)];
    assert!(curve_is_wf(&single));
    let ascending: Vec<(u64, u64)> = vec![(1, 10), (5, 20), (5, 1), (10, 5)];
    assert!(curve_is_wf(&ascending));
    let unordered: Vec<(u64, u64)> = vec![(5, 20), (1, 10)];
    assert!(!curve_is_wf(&unordered));
}
