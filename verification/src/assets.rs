//! Quad corner groups and animation modes.
//!
//! A [`QuadGroup`] carries one value per corner of a textured quad
//! (colours, texture coordinates) and supports the flips a renderer
//! needs.

use vstd::prelude::*;

verus! {

/// The interpolation curve of an animation effect.
#[derive(Clone, Copy, Debug, PartialEq, Eq, Structural)]
pub enum EffectMode {
    Linear,
    EaseIn,
    EaseOut,
    EaseInOut,
}

/// One value per corner of a quad.
#[derive(Clone, Copy, Debug)]
pub struct QuadGroup<T> {
    pub top_left: T,
    pub top_right: T,
    pub bottom_left: T,
    pub bottom_right: T,
}

impl<T> QuadGroup<T> {
    pub fn new(top_left: T, top_right: T, bottom_left: T, bottom_right: T) -> (r: QuadGroup<T>)
        ensures
            r.top_left == top_left,
            r.top_right == top_right,
            r.bottom_left == bottom_left,
            r.bottom_right == bottom_right,
    {
        QuadGroup { top_left, top_right, bottom_left, bottom_right }
    }

    /// Mirrors the quad horizontally.
    pub fn flip_x(&mut self)
        ensures
            final(self).top_left == old(self).top_right,
            final(self).top_right == old(self).top_left,
            final(self).bottom_left == old(self).bottom_right,
            final(self).bottom_right == old(self).bottom_left,
    {
        core::mem::swap(&mut self.top_left, &mut self.top_right);
        core::mem::swap(&mut self.bottom_left, &mut self.bottom_right);
    }

    /// Mirrors the quad vertically.
    pub fn flip_y(&mut self)
        ensures
            final(self).top_left == old(self).bottom_left,
            final(self).bottom_left == old(self).top_left,
            final(self).top_right == old(self).bottom_right,
            final(self).bottom_right == old(self).top_right,
    {
        core::mem::swap(&mut self.top_left, &mut self.bottom_left);
        core::mem::swap(&mut self.top_right, &mut self.bottom_right);
    }

    /// Rotates the quad by a half turn.
    pub fn flip(&mut self)
        ensures
            final(self).top_left == old(self).bottom_right,
            final(self).bottom_right == old(self).top_left,
            final(self).top_right == old(self).bottom_left,
            final(self).bottom_left == old(self).top_right,
    {
        core::mem::swap(&mut self.top_left, &mut self.bottom_right);
        core::mem::swap(&mut self.top_right, &mut self.bottom_left);
    }
}

impl<T: Copy> QuadGroup<T> {
    /// The same value at every corner.
    pub fn single(data: T) -> (r: QuadGroup<T>)
        ensures
            r.top_left == data,
            r.top_right == data,
            r.bottom_left == data,
            r.bottom_right == data,
    {
        QuadGroup::new(data, data, data, data)
    }

    /// One value along the top edge, another along the bottom.
    pub fn vertical(top: T, bottom: T) -> (r: QuadGroup<T>)
        ensures
            r.top_left == top,
            r.top_right == top,
            r.bottom_left == bottom,
            r.bottom_right == bottom,
    {
        QuadGroup::new(top, top, bottom, bottom)
    }

    /// One value along the left edge, another along the right.
    pub fn horizontal(left: T, right: T) -> (r: QuadGroup<T>)
        ensures
            r.top_left == left,
            r.top_right == right,
            r.bottom_left == left,
            r.bottom_right == right,
    {
        QuadGroup::new(left, right, left, right)
    }
}

} // verus!
