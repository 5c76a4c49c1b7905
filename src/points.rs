//! Points and pairs over type parameters.
use vstd::prelude::*;
use crate::extremum::Comparable;

verus! {

/// A point whose coordinates share one type.
#[derive(Debug)]
pub struct Point<T> {
    pub x: T,
    pub y: T,
}

impl<T> Point<T> {
    /// Returns the first coordinate.
    pub fn x(&self) -> (r: &T)
        ensures
            *r == self.x,
    {
        &self.x
    }
}

/// A point whose two coordinates may have different types.
#[derive(Debug)]
pub struct NewPoint<T, U> {
    pub x: T,
    pub y: U,
}

impl<T, U> NewPoint<T, U> {
    /// Returns the point with the first coordinate of `self` and the second
    /// of `other_point`.
    pub fn mixup<V, W>(self, other_point: NewPoint<V, W>) -> (r: NewPoint<T, W>)
        ensures
            r.x == self.x,
            r.y == other_point.y,
    {
        NewPoint { x: self.x, y: other_point.y }
    }
}

/// Two values of one type.
pub struct Pair<T> {
    pub x: T,
    pub y: T,
}

impl<T> Pair<T> {
    /// Returns the pair of `x` and `y`.
    pub fn new(x: T, y: T) -> (r: Self)
        ensures
            r.x == x,
            r.y == y,
    {
        Self { x, y }
    }
}

impl<T: Comparable> Pair<T> {
    /// Whether the first value is at least as large as the second.
    pub fn x_is_largest(&self) -> (r: bool)
        ensures
            r == (self.x.rank() >= self.y.rank()),
    {
        !self.y.greater_than(&self.x)
    }
}

} // verus!
