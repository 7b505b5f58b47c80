use tagbrain::natural::Natural;

fn same(a: &Natural, b: &Natural) -> bool {
    !a.lt(b) && !b.lt(a)
}

#[test]
fn small_numbers_compare_as_they_are() {
    let two = Natural::from_u64(2);
    let three = Natural::from_u64(3);
    assert!(two.lt(&three));
    assert!(!three.lt(&two));
    assert!(!two.lt(&two));
    assert!(same(&Natural::from_u64(0), &Natural::from_u64(0)));
    assert!(Natural::from_u64(0).lt(&Natural::from_u64(1)));
    assert!(Natural::from_u64(u64::MAX - 1).lt(&Natural::from_u64(u64::MAX)));
}

#[test]
fn sums_and_products_of_small_numbers() {
    let six = Natural::from_u64(2).mul_u64(3);
    assert!(same(&six, &Natural::from_u64(6)));
    let five = Natural::from_u64(2).add(&Natural::from_u64(3));
    assert!(same(&five, &Natural::from_u64(5)));
    assert!(five.lt(&six));
    assert!(same(&Natural::from_u64(7).mul_u64(0), &Natural::from_u64(0)));
    assert!(same(&Natural::from_u64(0).mul_u64(7), &Natural::from_u64(0)));
    assert!(same(&Natural::from_u64(7).mul_u64(1), &Natural::from_u64(7)));
    assert!(same(&Natural::from_u64(7).add(&Natural::from_u64(0)), &Natural::from_u64(7)));
}

#[test]
fn a_sum_carries_into_the_next_digit() {
    // (2^64 - 1) + 1 = 2^32 * 2^32
    let sum = Natural::from_u64(u64::MAX).add(&Natural::from_u64(1));
    let product = Natural::from_u64(1 << 32).mul_u64(1 << 32);
    assert!(same(&sum, &product));
    assert!(Natural::from_u64(u64::MAX).lt(&sum));
    assert!(!sum.lt(&Natural::from_u64(u64::MAX)));
    // (2^64 - 1) + (2^64 - 1) = (2^64 - 1) * 2
    let twice = Natural::from_u64(u64::MAX).add(&Natural::from_u64(u64::MAX));
    assert!(same(&twice, &Natural::from_u64(u64::MAX).mul_u64(2)));
    assert!(sum.lt(&twice));
}

#[test]
fn products_grow_beyond_two_digits() {
    let m = u64::MAX;
    let square = Natural::from_u64(m).mul_u64(m);
    let cube = square.mul_u64(m);
    let fourth = cube.mul_u64(m);
    assert!(square.lt(&cube));
    assert!(cube.lt(&fourth));
    assert!(!fourth.lt(&cube));
    // m^2 + m = m * (m + 1) = m * 2^64 = m * 2^32 * 2^32
    let left = square.add(&Natural::from_u64(m));
    let right = Natural::from_u64(m).mul_u64(1 << 32).mul_u64(1 << 32);
    assert!(same(&left, &right));
    // (m^3 + m^3) * 3 = m^3 * 6
    let a = cube.add(&cube).mul_u64(3);
    let b = cube.mul_u64(6);
    assert!(same(&a, &b));
    assert!(a.lt(&b.add(&Natural::from_u64(1))));
    assert!(cube.mul_u64(5).lt(&a));
}

#[test]
fn numbers_of_different_lengths_compare_by_value() {
    let m = u64::MAX;
    let long_zero = Natural::from_u64(0).mul_u64(m).mul_u64(m);
    assert!(same(&long_zero, &Natural::from_u64(0)));
    assert!(long_zero.lt(&Natural::from_u64(1)));
    assert!(!Natural::from_u64(1).lt(&Natural::from_u64(1).mul_u64(1).mul_u64(1)));
    let long_one = Natural::from_u64(1).mul_u64(1).mul_u64(1).mul_u64(1);
    assert!(same(&long_one, &Natural::from_u64(1)));
    assert!(long_one.lt(&Natural::from_u64(2)));
    assert!(same(&long_one.add(&Natural::from_u64(1)), &Natural::from_u64(2)));
    let high = Natural::from_u64(1 << 63).mul_u64(2);
    assert!(Natural::from_u64(m).lt(&high));
    assert!(!high.lt(&Natural::from_u64(m)));
}
