use linuxvideo::fract::{gcd, lcm, same_denom};
use linuxvideo::Fract;

#[test]
fn test_gcd() {
    assert_eq!(gcd(6, 9), 3);
    assert_eq!(gcd(7, 13), 1);
    assert_eq!(1920 / gcd(1920, 1080), 16);
    assert_eq!(1080 / gcd(1920, 1080), 9);

    // degenerate case where one of the arguments is 0 - the other one will be returned
    assert_eq!(gcd(0, 7), 7);
    assert_eq!(gcd(7, 0), 7);
    assert_eq!(gcd(0, 0), 0);
}

#[test]
fn test_lcm() {
    assert_eq!(lcm(1, 1), 1);
    assert_eq!(lcm(1, 3), 3);
    assert_eq!(lcm(3, 1), 3);

    assert_eq!(lcm(3, 5), 15);
    assert_eq!(lcm(5, 3), 15);
}

#[test]
fn test_same_denom() {
    let a = Fract::new(2, 3);
    let b = Fract::new(3, 5);
    let [x, y] = same_denom(a, b);
    assert_eq!(x.numerator(), 10);
    assert_eq!(x.denominator(), 15);
    assert_eq!(y.numerator(), 9);
    assert_eq!(y.denominator(), 15);
}

#[test]
fn fractions_compare_by_value() {
    assert!(Fract::new(1, 2) == Fract::new(2, 4));
    assert!(Fract::new(1, 3) < Fract::new(1, 2));
    assert!(Fract::new(u32::MAX, 1) > Fract::new(u32::MAX - 1, 1));
    assert!(Fract::new(1, 30) != Fract::new(1, 25));
}

#[test]
fn lcm_of_large_coprime_values() {
    assert_eq!(lcm(65536, 65535), 65536 * 65535);
}

#[test]
fn fraction_text() {
    assert_eq!(Fract::new(1, 30).to_string(), "1/30");
    assert_eq!(Fract::new(1000, 90).to_string(), "1000/90");
    assert_eq!(Fract::new(0, 1).to_string(), "0/1");
    assert_eq!(Fract::new(u32::MAX, 7).to_string(), "4294967295/7");
}
