//! Small arithmetic helpers.

use vstd::prelude::*;

verus! {

/// Sum of two integers.
pub fn add(x: i32, y: i32) -> (r: i32)
    requires
        i32::MIN <= x + y <= i32::MAX,
    ensures
        r == x + y,
{
    x + y
}

/// Product of two integers.
pub fn multiply(x: i32, y: i32) -> (r: i32)
    requires
        i32::MIN <= x * y <= i32::MAX,
    ensures
        r == x * y,
{
    x * y
}

/// True exactly when `n` is even.
pub fn check_even(n: i32) -> (r: bool)
    ensures
        r <==> n % 2 == 0,
{
    n % 2 == 0
}

/// Area of a `width` by `height` rectangle.
pub fn calculate_area(width: i32, height: i32) -> (r: i32)
    requires
        i32::MIN <= width * height <= i32::MAX,
    ensures
        r == width * height,
{
    let area = width * height;
    area
}

} // verus!
