use polylog::li::eta::neg_eta;
use polylog::li::fac::inv_fac;
use polylog::li::rest::{rest_term, rest_terms, RestTerm};

#[test]
fn terms_of_the_inversion_formula() {
    assert_eq!(rest_terms(0), 0);
    assert_eq!(rest_terms(1), 0);
    assert_eq!(rest_terms(7), 3);
    assert_eq!(rest_terms(8), 4);
    assert_eq!(rest_terms(i32::MAX), 1073741823);
    for n in 2..400 {
        for k in 1..=rest_terms(n) {
            let power = n - 2 * k;
            if power > 177 {
                assert_eq!(rest_term(n, k), None, "n = {}, k = {}", n, k);
            } else {
                let expected = RestTerm { eta: neg_eta(2 * k), inv_fac: inv_fac(power) };
                assert_eq!(rest_term(n, k), Some(expected), "n = {}, k = {}", n, k);
            }
        }
    }
}

#[test]
fn terms_of_a_small_order() {
    // Li_7: log^5/5! eta(2), log^3/3! eta(4), log/1! eta(6)
    let pi = std::f64::consts::PI;
    let t = rest_term(7, 1).unwrap();
    assert_eq!(f64::from_bits(t.eta.bits), -pi * pi / 12.0);
    assert_eq!(f64::from_bits(t.inv_fac.bits), 1.0 / 120.0);
    let t = rest_term(7, 3).unwrap();
    assert_eq!(t.eta, neg_eta(6));
    assert_eq!(f64::from_bits(t.inv_fac.bits), 1.0);
    let t = rest_term(8, 4).unwrap();
    assert_eq!(t.eta, neg_eta(8));
    assert_eq!(f64::from_bits(t.inv_fac.bits), 1.0);
}

#[test]
fn the_sum_of_a_huge_order_ends_at_once() {
    assert_eq!(rest_term(1000000, 1), None);
    assert_eq!(rest_term(i32::MAX, 1), None);
    assert!(rest_term(1000000, 500000).is_some());
    assert!(rest_term(1000000, 499912).is_some());
    assert_eq!(rest_term(1000000, 499911), None);
}
