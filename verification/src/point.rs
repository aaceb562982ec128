//! A pair of coordinates whose two components may differ in type.

use vstd::prelude::*;

verus! {

/// A point with an `x` of type `T` and a `y` of type `U`.
pub struct Point<T, U> {
    pub x: T,
    pub y: U,
}

impl<T> Point<T, T> {
    /// A point whose two coordinates have the same type.
    pub fn new(x: T, y: T) -> (p: Self)
        ensures
            p.x == x,
            p.y == y,
    {
        Self { x, y }
    }
}

impl Point<i32, i32> {
    /// The sum of the two coordinates, as a mathematical integer.
    pub open spec fn spec_sum(&self) -> int {
        self.x + self.y
    }

    /// The sum of the two coordinates. The caller shows that it fits in `i32`.
    pub fn sum(&self) -> (s: i32)
        requires
            i32::MIN <= self.spec_sum() <= i32::MAX,
        ensures
            s == self.spec_sum(),
    {
        self.x + self.y
    }
}

/// Builds one point of integers and one of string slices, and adds up the first.
pub fn _foo() {
    let int_point = Point::new(1i32, 2i32);
    let total: i32 = int_point.sum();
    assert(total == 3);
    let _str_point = Point::new("a", "b");
}

} // verus!
