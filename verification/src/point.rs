use vstd::prelude::*;

verus! {

/// A point in 2D space.
#[derive(Clone, Copy, Debug)]
pub struct Point<T> {
    pub x: T,
    pub y: T,
}

impl<T> Point<T> {
    /// Creates a point from its x and y position.
    #[inline]
    pub fn new(x: T, y: T) -> (p: Point<T>)
        ensures
            p == (Point { x, y }),
    {
        Point { x, y }
    }

    /// Applies `f` to the x part and then to the y part.
    #[inline]
    pub fn map<F: Fn(T) -> U, U>(self, f: F) -> (p: Point<U>)
        requires
            call_requires(f, (self.x,)),
            call_requires(f, (self.y,)),
        ensures
            call_ensures(f, (self.x,), p.x),
            call_ensures(f, (self.y,), p.y),
    {
        Point::<U> { x: f(self.x), y: f(self.y) }
    }
}

impl<T: Default> Default for Point<T> {
    /// The point whose two parts are the element type's default value.
    fn default() -> (p: Point<T>)
        ensures
            call_ensures(T::default, (), p.x),
            call_ensures(T::default, (), p.y),
    {
        Point { x: T::default(), y: T::default() }
    }
}

} // verus!
