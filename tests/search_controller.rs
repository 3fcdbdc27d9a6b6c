use coord_transform::search::{settled, side_of, Search, Side, Step, MAX_ITERATIONS, TOLERANCE};

#[test]
fn tolerance_is_one_ten_billionth() {
    assert_eq!(TOLERANCE, 0.0000000001f64.to_bits());
}

#[test]
fn small_residuals_are_settled() {
    assert!(settled(0.0f64.to_bits()));
    assert!(settled((-0.0f64).to_bits()));
    assert!(settled(5e-11f64.to_bits()));
    assert!(settled((-5e-11f64).to_bits()));
}

#[test]
fn residual_at_tolerance_is_not_settled() {
    assert!(!settled(1e-10f64.to_bits()));
    assert!(!settled((-1e-10f64).to_bits()));
    assert!(!settled(0.005f64.to_bits()));
    assert!(!settled(f64::NAN.to_bits()));
    assert!(!settled(f64::NEG_INFINITY.to_bits()));
}

#[test]
fn positive_residual_moves_upper_bound() {
    assert_eq!(side_of(0.003f64.to_bits()), Side::Upper);
    assert_eq!(side_of(f64::MIN_POSITIVE.to_bits()), Side::Upper);
    assert_eq!(side_of(f64::INFINITY.to_bits()), Side::Upper);
}

#[test]
fn non_positive_residual_moves_lower_bound() {
    assert_eq!(side_of(0.0f64.to_bits()), Side::Lower);
    assert_eq!(side_of((-0.0f64).to_bits()), Side::Lower);
    assert_eq!(side_of((-0.003f64).to_bits()), Side::Lower);
    assert_eq!(side_of(f64::NAN.to_bits()), Side::Lower);
}

#[test]
fn settled_residuals_converge_at_once() {
    let mut s = Search::new();
    assert_eq!(s.step(1e-11f64.to_bits(), (-1e-11f64).to_bits()), Step::Converged);
    assert_eq!(s.narrowed, 0);
}

#[test]
fn one_settled_axis_is_not_enough() {
    let mut s = Search::new();
    let r = s.step(1e-11f64.to_bits(), (-0.25f64).to_bits());
    assert_eq!(r, Step::Narrow { lon: Side::Upper, lat: Side::Lower });
    assert_eq!(s.narrowed, 1);
    let r = s.step(0.5f64.to_bits(), 0.0f64.to_bits());
    assert_eq!(r, Step::Narrow { lon: Side::Upper, lat: Side::Lower });
    assert_eq!(s.narrowed, 2);
}

#[test]
fn search_that_never_settles_is_exhausted() {
    let mut s = Search::new();
    let mut evaluations: u32 = 0;
    loop {
        evaluations += 1;
        match s.step(0.005f64.to_bits(), (-0.005f64).to_bits()) {
            Step::Narrow { lon, lat } => {
                assert_eq!(lon, Side::Upper);
                assert_eq!(lat, Side::Lower);
            }
            Step::Exhausted => break,
            Step::Converged => panic!("converged on residuals that never settle"),
        }
        assert!(evaluations < 1000);
    }
    assert_eq!(evaluations, MAX_ITERATIONS);
}

#[test]
fn bisection_finds_root_of_monotone_residual() {
    // residuals x - 2 and y - 3: the answer is (2, 3)
    let (mut mlon, mut plon) = (1.99, 2.01);
    let (mut mlat, mut plat) = (2.995, 3.015);
    let mut s = Search::new();
    let mut evaluations: u32 = 0;
    loop {
        evaluations += 1;
        let lon = (mlon + plon) / 2.0;
        let lat = (mlat + plat) / 2.0;
        let (dlon, dlat): (f64, f64) = (lon - 2.0, lat - 3.0);
        match s.step(dlon.to_bits(), dlat.to_bits()) {
            Step::Converged => {
                assert!((lon - 2.0).abs() < 1e-10);
                assert!((lat - 3.0).abs() < 1e-10);
                break;
            }
            Step::Narrow { lon: slon, lat: slat } => {
                if slon == Side::Upper { plon = lon } else { mlon = lon }
                if slat == Side::Upper { plat = lat } else { mlat = lat }
            }
            Step::Exhausted => panic!("did not converge"),
        }
    }
    assert!(evaluations < 60);
}
