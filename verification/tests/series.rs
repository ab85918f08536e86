use von_mises::bessel::BesselTable;
use von_mises::bessel::TRUNCATION_ORDER;
use von_mises::binary64::Binary64;
use von_mises::error::StatsError;
use von_mises::distribution::VonMises;

fn bits_of(x: f64) -> Binary64 {
    Binary64::from_bits(x.to_bits())
}

fn double_of(b: Binary64) -> f64 {
    f64::from_bits(b.to_bits())
}

/// I_order(x) by its power series, for the small arguments of these tests.
fn bessel_i(order: usize, x: f64) -> f64 {
    let half = x / 2.0;
    let mut term = 1.0;
    for i in 1..=order {
        term *= half / i as f64;
    }
    let mut sum = 0.0;
    let mut k: usize = 0;
    while k < 500 {
        sum += term;
        k += 1;
        term *= half * half / (k as f64 * (k + order) as f64);
    }
    sum
}

fn higher_orders(x: f64) -> Vec<Binary64> {
    (1..=TRUNCATION_ORDER).map(|j| bits_of(bessel_i(j, x))).collect()
}

/// The truncated series, summed in doubles over a vetted table.
fn distribution_function(d: &VonMises, x: f64) -> Result<f64, StatsError> {
    d.check_point(bits_of(x))?;
    let location = double_of(d.location());
    let concentration = double_of(d.concentration());
    let table = BesselTable::new(bits_of(bessel_i(0, concentration)), higher_orders(concentration))?;
    let offset = x - location;
    let mut sum = 0.0;
    for j in 1..=TRUNCATION_ORDER {
        let i_j = double_of(table.order(j).unwrap());
        sum += i_j * (j as f64 * offset).sin() / j as f64;
    }
    Ok(0.5 + (offset + 2.0 * sum / double_of(table.zeroth())) / (2.0 * std::f64::consts::PI))
}

fn distribution(location: f64, concentration: f64) -> VonMises {
    VonMises::new(bits_of(location), bits_of(concentration)).unwrap()
}

fn close(actual: f64, expected: f64) -> bool {
    (actual - expected).abs() < 0.000001
}

#[test]
fn truncation_order_is_one_hundred() {
    assert_eq!(TRUNCATION_ORDER, 100);
}

#[test]
fn table_accepts_usable_values() {
    let table = BesselTable::new(bits_of(bessel_i(0, 1.0)), higher_orders(1.0));
    assert!(table.is_ok());
}

#[test]
fn table_keeps_the_values_in_order() {
    let higher: Vec<Binary64> = (1..=TRUNCATION_ORDER).map(|j| bits_of(j as f64)).collect();
    let table = BesselTable::new(bits_of(0.5), higher).unwrap();
    assert_eq!(double_of(table.zeroth()), 0.5);
    for j in 1..=TRUNCATION_ORDER {
        assert_eq!(double_of(table.order(j).unwrap()), j as f64);
    }
}

#[test]
fn table_has_no_order_zero_and_none_past_the_last() {
    let table = BesselTable::new(bits_of(1.0), higher_orders(1.0)).unwrap();
    assert!(table.order(0).is_none());
    assert!(table.order(TRUNCATION_ORDER + 1).is_none());
    assert!(table.order(usize::MAX).is_none());
    assert!(table.order(1).is_some());
    assert!(table.order(TRUNCATION_ORDER).is_some());
}

#[test]
fn table_rejects_a_wrong_count() {
    let mut short = higher_orders(1.0);
    short.pop();
    assert_eq!(BesselTable::new(bits_of(1.0), short).unwrap_err(), StatsError::ProviderFailure);
    let mut long = higher_orders(1.0);
    long.push(bits_of(0.0));
    assert_eq!(BesselTable::new(bits_of(1.0), long).unwrap_err(), StatsError::ProviderFailure);
    assert_eq!(
        BesselTable::new(bits_of(1.0), Vec::new()).unwrap_err(),
        StatsError::ProviderFailure
    );
}

#[test]
fn table_rejects_a_zeroth_value_that_cannot_divide() {
    for zeroth in [0.0, -0.0, -1.0, f64::INFINITY, f64::NEG_INFINITY, f64::NAN] {
        assert_eq!(
            BesselTable::new(bits_of(zeroth), higher_orders(1.0)).unwrap_err(),
            StatsError::ProviderFailure,
            "{:?}",
            zeroth
        );
    }
}

#[test]
fn table_rejects_a_value_that_is_not_finite() {
    for bad in [f64::INFINITY, f64::NEG_INFINITY, f64::NAN] {
        for at in [0usize, 1, 50, 98, 99] {
            let mut higher = higher_orders(1.0);
            higher[at] = bits_of(bad);
            assert_eq!(
                BesselTable::new(bits_of(1.0), higher).unwrap_err(),
                StatsError::ProviderFailure,
                "{:?} at {}",
                bad,
                at
            );
        }
    }
}

#[test]
fn table_accepts_zero_and_negative_finite_values() {
    let mut higher = higher_orders(1.0);
    higher[99] = bits_of(0.0);
    higher[98] = bits_of(-0.0);
    higher[97] = bits_of(-1.0);
    assert!(BesselTable::new(bits_of(5e-324), higher).is_ok());
}

#[test]
fn series_gives_known_probabilities_at_concentration_one() {
    let vm = distribution(0.0, 1.0);
    assert!(close(distribution_function(&vm, -3.0).unwrap(), 0.006569944565732455));
    assert!(close(distribution_function(&vm, -2.0).unwrap(), 0.06575904411000724));
    assert!(close(distribution_function(&vm, -1.0).unwrap(), 0.20564469256531126));
    assert!(close(distribution_function(&vm, 0.0).unwrap(), 0.5));
    assert!(close(distribution_function(&vm, 1.0).unwrap(), 0.7943553074346887));
    assert!(close(distribution_function(&vm, 2.0).unwrap(), 0.9342409558899928));
    assert!(close(distribution_function(&vm, 3.0).unwrap(), 0.9934300554342675));
}

#[test]
fn series_gives_known_probabilities_at_concentration_four() {
    let vm = distribution(0.0, 4.0);
    assert!(close(distribution_function(&vm, -3.0).unwrap(), 3.701352583693543e-05));
    assert!(close(distribution_function(&vm, -2.0).unwrap(), 0.0008703772263199128));
    assert!(close(distribution_function(&vm, -1.0).unwrap(), 0.033225820901453484));
    assert!(close(distribution_function(&vm, 0.0).unwrap(), 0.5));
    assert!(close(distribution_function(&vm, 1.0).unwrap(), 0.9667741790985465));
    assert!(close(distribution_function(&vm, 2.0).unwrap(), 0.9991296227736801));
    assert!(close(distribution_function(&vm, 3.0).unwrap(), 0.999962986474163));
}

#[test]
fn series_gives_known_probabilities_at_location_one() {
    let vm = distribution(1.0, 1.0);
    assert!(close(distribution_function(&vm, -2.0).unwrap(), 0.006569944565732455));
    assert!(close(distribution_function(&vm, -1.0).unwrap(), 0.06575904411000724));
    assert!(close(distribution_function(&vm, 0.0).unwrap(), 0.20564469256531126));
    assert!(close(distribution_function(&vm, 1.0).unwrap(), 0.5));
    assert!(close(distribution_function(&vm, 2.0).unwrap(), 0.7943553074346887));
    assert!(close(distribution_function(&vm, 3.0).unwrap(), 0.9342409558899928));
}

#[test]
fn series_is_one_half_at_the_location() {
    for location in [0.0, 1.0, -2.5, 0.3] {
        for concentration in [0.5, 1.0, 4.0, 10.0] {
            let vm = distribution(location, concentration);
            assert!(close(distribution_function(&vm, location).unwrap(), 0.5));
        }
    }
}

#[test]
fn series_does_not_decrease_within_one_period() {
    for concentration in [0.5, 1.0, 4.0] {
        let vm = distribution(0.25, concentration);
        let mut last = distribution_function(&vm, 0.25 - 3.125).unwrap();
        for step in 1..=50 {
            let x = 0.25 - 3.125 + 0.125 * step as f64;
            let next = distribution_function(&vm, x).unwrap();
            assert!(last <= next + 1e-9, "{} {}", concentration, x);
            last = next;
        }
    }
}

#[test]
fn series_is_symmetric_about_the_location() {
    for concentration in [0.5, 1.0, 4.0] {
        let vm = distribution(1.0, concentration);
        for t in [0.1, 0.5, 1.0, 2.0, 3.0, std::f64::consts::PI] {
            let below = distribution_function(&vm, 1.0 - t).unwrap();
            let above = distribution_function(&vm, 1.0 + t).unwrap();
            assert!(close(below + above, 1.0), "{} {}", concentration, t);
        }
    }
}

#[test]
fn series_steepens_with_the_concentration() {
    let mut last = 0.5;
    for concentration in [0.25, 0.5, 1.0, 2.0, 4.0, 8.0] {
        let vm = distribution(0.0, concentration);
        let next = distribution_function(&vm, 1.0).unwrap();
        assert!(last < next, "{}", concentration);
        assert!(next < 1.0);
        last = next;
    }
}

#[test]
fn series_is_not_evaluated_at_nan() {
    let vm = distribution(0.0, 1.0);
    assert_eq!(distribution_function(&vm, f64::NAN), Err(StatsError::InvalidParameter));
}
