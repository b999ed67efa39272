//! Points, extents and axis-aligned boxes.

use std::ops::Add;
use vstd::prelude::*;
use vstd::std_specs::ops::AddSpec;

verus! {

/// A point, or an offset, with one coordinate per axis.
#[derive(Debug, Clone, Copy, PartialEq, Eq)]
pub struct Position<T> {
    pub x: T,
    pub y: T,
}

/// An extent: a width and a height.
#[derive(Debug, Clone, Copy, PartialEq, Eq)]
pub struct Size<T> {
    pub w: T,
    pub h: T,
}

/// An axis-aligned box, held as its top-left corner and its extent.
#[derive(Debug, Clone, Copy, PartialEq, Eq)]
pub struct Bounds<T> {
    pub pos: Position<T>,
    pub size: Size<T>,
}

impl<T: Add<Output = T> + Clone + Copy> Bounds<T> {
    /// The horizontal coordinate of the right edge: the corner's `x` plus the width.
    pub fn right(&self) -> (edge: T)
        requires
            self.pos.x.add_req(self.size.w),
        ensures
            T::obeys_add_spec() ==> edge == self.pos.x.add_spec(self.size.w),
    {
        self.pos.x + self.size.w
    }

    /// The horizontal coordinate of the left edge.
    pub fn left(&self) -> (edge: T)
        ensures
            edge == self.pos.x,
    {
        self.pos.x
    }

    /// The vertical coordinate of the top edge.
    pub fn top(&self) -> (edge: T)
        ensures
            edge == self.pos.y,
    {
        self.pos.y
    }

    /// The vertical coordinate of the bottom edge: the corner's `y` plus the height.
    pub fn bottom(&self) -> (edge: T)
        requires
            self.pos.y.add_req(self.size.h),
        ensures
            T::obeys_add_spec() ==> edge == self.pos.y.add_spec(self.size.h),
    {
        self.pos.y + self.size.h
    }
}

} // verus!
