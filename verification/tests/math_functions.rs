use sync_primitives::math_functions::{add, calculate_area, check_even, multiply};

#[test]
fn test_add() {
    assert_eq!(add(2, 3), 5);
    assert_eq!(add(-1, 1), 0);
    assert_eq!(add(0, 0), 0);
}

#[test]
fn test_multiply() {
    assert_eq!(multiply(4, 5), 20);
    assert_eq!(multiply(0, 100), 0);
    assert_eq!(multiply(-3, 3), -9);
}

#[test]
fn test_check_even() {
    assert_eq!(check_even(2), true);
    assert_eq!(check_even(3), false);
    assert_eq!(check_even(0), true);
    assert_eq!(check_even(-4), true);
    assert_eq!(check_even(-3), false);
}

#[test]
fn test_calculate_area() {
    assert_eq!(calculate_area(5, 10), 50);
    assert_eq!(calculate_area(0, 10), 0);
    assert_eq!(calculate_area(7, 7), 49);
}

#[test]
fn test_add_is_commutative() {
    let a = 5;
    let b = 10;
    assert!(add(a, b) == add(b, a), "Addition should be commutative");
}

#[test]
fn test_even_numbers() {
    let even_numbers = vec![2, 4, 6, 8, 10, 100, 1000];
    for num in even_numbers {
        assert!(check_even(num), "{} should be even", num);
    }
}

#[test]
fn test_negative_area() {
    assert_eq!(calculate_area(-5, -5), 25);
    assert_eq!(calculate_area(-5, 5), -25);
}
