use kl25z_hal::spi::get_baud_rate_divisors;
use kl25z_hal::time::U32Ext;

#[test]
fn test_baud_rate_divisors() {
    // Exact divisors.
    assert_eq!(get_baud_rate_divisors(16.hz(), 2.hz()), (0, 3));
    assert_eq!(get_baud_rate_divisors(32.hz(), 2.hz()), (1, 3));
    assert_eq!(get_baud_rate_divisors(1280.hz(), 4.hz()), (5, 4));
    // Correct rounding.
    assert_eq!(get_baud_rate_divisors(14.hz(), 2.hz()), (0, 3));
    assert_eq!(get_baud_rate_divisors(50.hz(), 2.hz()), (1, 6));
}

#[test]
fn baud_rate_divisor_of_one() {
    // A rate equal to the bus clock needs no division at all.
    assert_eq!(get_baud_rate_divisors(8_000_000.hz(), 8_000_000.hz()), (0, 0));
}

#[test]
fn baud_rate_exponent_saturates() {
    // An enormous divisor pins both fields at their maxima.
    assert_eq!(get_baud_rate_divisors(4_000_000_000.hz(), 1.hz()), (8, 7));
}

#[test]
fn baud_rate_rounds_to_slower() {
    // Divisor 33 cannot be hit exactly: the prescaler is rounded up,
    // giving an actual divisor of 5 * 8 = 40 (slower, never faster).
    assert_eq!(get_baud_rate_divisors(66.hz(), 2.hz()), (2, 4));
}
