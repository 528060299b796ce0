//! Generic helpers: points with mixed coordinate types, a home-grown
//! option type, and functions polymorphic over their element type.

use vstd::prelude::*;

verus! {

/// A point whose two coordinates may have different types.
pub struct MixedPoint<T, U> {
    pub x: T,
    pub y: U,
}

impl<T, U> MixedPoint<T, U> {
    /// A point from its two coordinates.
    pub fn new(x: T, y: U) -> (p: Self)
        ensures
            p.x == x,
            p.y == y,
    {
        MixedPoint { x, y }
    }

    /// Combines this point's first coordinate with another point's
    /// second coordinate.
    pub fn mixup<V, W>(self, other: MixedPoint<V, W>) -> (p: MixedPoint<T, W>)
        ensures
            p.x == self.x,
            p.y == other.y,
    {
        MixedPoint { x: self.x, y: other.y }
    }
}

/// A home-grown optional value.
pub enum Option2<T> {
    Present(T),
    Absent,
}

impl<T> Option2<T> {
    /// The held value, or `default` when there is none.
    pub fn unwrap_or(self, default: T) -> (r: T)
        ensures
            self matches Option2::Present(v) ==> r == v,
            self is Absent ==> r == default,
    {
        match self {
            Option2::Present(value) => value,
            Option2::Absent => default,
        }
    }

    /// Applies `f` to the held value, if any.
    pub fn map<U, F: FnOnce(T) -> U>(self, f: F) -> (r: Option2<U>)
        requires
            self matches Option2::Present(v) ==> f.requires((v,)),
        ensures
            self matches Option2::Present(v) ==> (r matches Option2::Present(u) && f.ensures(
                (v,),
                u,
            )),
            self is Absent ==> r is Absent,
    {
        match self {
            Option2::Present(value) => Option2::Present(f(value)),
            Option2::Absent => Option2::Absent,
        }
    }
}

/// A container that owns a string but is typed by a phantom marker.
pub struct PhantomContainer<T> {
    data: String,
    phantom: core::marker::PhantomData<T>,
}

impl<T> PhantomContainer<T> {
    /// The characters held.
    pub closed spec fn spec_data(&self) -> Seq<char> {
        self.data@
    }

    /// Wraps `data` under the phantom type `T`.
    pub fn new(data: String) -> (c: Self)
        ensures
            c.spec_data() == data@,
    {
        PhantomContainer { data, phantom: core::marker::PhantomData }
    }

    /// A view of the held string.
    pub fn get_data(&self) -> (r: &str)
        ensures
            r@ == self.spec_data(),
    {
        self.data.as_str()
    }
}

/// A pair of two values of one type.
pub struct Pair<T> {
    pub x: T,
    pub y: T,
}

impl<T> Pair<T> {
    /// A pair from its two components.
    pub fn new(x: T, y: T) -> (p: Self)
        ensures
            p.x == x,
            p.y == y,
    {
        Pair { x, y }
    }
}

impl Pair<i64> {
    /// The larger component; the second wins ties.
    pub fn larger(&self) -> (r: &i64)
        ensures
            *r == if self.x > self.y {
                self.x
            } else {
                self.y
            },
    {
        if self.x > self.y {
            &self.x
        } else {
            &self.y
        }
    }
}

/// Exchanges the contents of two places.
pub fn swap<T>(x: &mut T, y: &mut T)
    ensures
        *final(x) == *old(y),
        *final(y) == *old(x),
{
    core::mem::swap(x, y);
}

/// The largest element of a non-empty slice: an element of the slice
/// that no other element exceeds.
pub fn largest(list: &[i64]) -> (r: i64)
    requires
        list@.len() > 0,
    ensures
        list@.contains(r),
        forall|i: int| 0 <= i < list@.len() ==> list@[i] <= r,
{
    let mut best: i64 = list[0];
    let mut i: usize = 1;
    while i < list.len()
        invariant
            1 <= i <= list@.len(),
            list@.contains(best),
            forall|j: int| 0 <= j < i ==> list@[j] <= best,
        decreases list@.len() - i,
    {
        if list[i] > best {
            best = list[i];
        }
        i = i + 1;
    }
    best
}

/// Moves every element of `v2` onto the end of `v1`.
pub fn combine_vectors<T>(v1: Vec<T>, v2: Vec<T>) -> (r: Vec<T>)
    ensures
        r@ == v1@ + v2@,
{
    let mut result = v1;
    let mut rest = v2;
    result.append(&mut rest);
    result
}

/// Applies a binary operation to two integers and returns its result.
pub fn apply_operation<F: Fn(i32, i32) -> i32>(x: i32, y: i32, operation: F) -> (r: i32)
    requires
        operation.requires((x, y)),
    ensures
        operation.ensures((x, y), r),
{
    operation(x, y)
}

} // verus!
