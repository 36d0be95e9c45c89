use primes::primes::{is_prime, Primes};

#[test]
fn build_bound_30_gives_expected_sequence() {
    let p = Primes::build(30);
    assert_eq!(p.primes().as_slice(), &[2, 3, 5, 7, 11, 13, 17, 19, 23, 29]);
}

#[test]
fn build_bound_0_is_empty() {
    let p = Primes::build(0);
    assert!(p.primes().is_empty());
}

#[test]
fn build_bound_1_is_empty() {
    let p = Primes::build(1);
    assert!(p.primes().is_empty());
}

#[test]
fn build_bound_2_is_just_two() {
    let p = Primes::build(2);
    assert_eq!(p.primes().as_slice(), &[2]);
}

#[test]
fn build_is_strictly_increasing() {
    let p = Primes::build(1000);
    let values = p.primes();
    for i in 1..values.len() {
        assert!(values[i - 1] < values[i]);
    }
}

#[test]
fn build_elements_have_no_small_divisor() {
    let p = Primes::build(1000);
    for &n in p.primes() {
        assert!(n >= 2);
        let mut i = 2u32;
        while i * i <= n {
            assert_ne!(n % i, 0, "{n} has divisor {i}");
            i += 1;
        }
    }
}

#[test]
fn is_prime_spot_checks() {
    assert!(!is_prime(0));
    assert!(!is_prime(1));
    assert!(is_prime(2));
    assert!(is_prime(3));
    assert!(!is_prime(4));
    assert!(!is_prime(25));
    assert!(is_prime(29));
    assert!(!is_prime(91)); // 7 * 13
    assert!(is_prime(97));
    assert!(!is_prime(348513 * 2));
}

#[test]
fn from_unchecked_keeps_values() {
    let p = Primes::from_unchecked(vec![9, 4, 7]);
    assert_eq!(p.primes().as_slice(), &[9, 4, 7]);
}
