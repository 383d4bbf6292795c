//! Input actions and window configuration.
//!
//! An [`Action`] is the per-frame state of one key or button: edge
//! states (`Pressed`, `Released`) decay into level states (`Down`,
//! `Up`) when a new frame begins.

use vstd::prelude::*;

verus! {

/// The state of a key or mouse button within a frame.
#[derive(Clone, Copy, Debug, PartialEq, Eq, Structural)]
pub enum Action {
    Pressed,
    Down,
    Released,
    Up,
}

impl Action {
    /// Frame decay: an edge becomes the matching level; levels persist.
    pub fn update(&mut self)
        ensures
            *final(self) == (match *old(self) {
                Action::Pressed => Action::Down,
                Action::Released => Action::Up,
                other => other,
            }),
    {
        match self {
            Action::Pressed => *self = Action::Down,
            Action::Released => *self = Action::Up,
            _ => {},
        }
    }

    pub fn is_pressed(&self) -> (r: bool)
        ensures
            r == (*self == Action::Pressed),
    {
        *self == Action::Pressed
    }

    pub fn is_down(&self) -> (r: bool)
        ensures
            r == (*self == Action::Down),
    {
        *self == Action::Down
    }

    pub fn is_released(&self) -> (r: bool)
        ensures
            r == (*self == Action::Released),
    {
        *self == Action::Released
    }

    pub fn is_up(&self) -> (r: bool)
        ensures
            r == (*self == Action::Up),
    {
        *self == Action::Up
    }

    pub fn is_pressed_or_down(&self) -> (r: bool)
        ensures
            r == (*self == Action::Pressed || *self == Action::Down),
    {
        self.is_pressed() || self.is_down()
    }

    pub fn is_pressed_or_released(&self) -> (r: bool)
        ensures
            r == (*self == Action::Pressed || *self == Action::Released),
    {
        self.is_pressed() || self.is_released()
    }

    pub fn is_pressed_or_up(&self) -> (r: bool)
        ensures
            r == (*self == Action::Pressed || *self == Action::Up),
    {
        self.is_pressed() || self.is_up()
    }

    pub fn is_down_or_released(&self) -> (r: bool)
        ensures
            r == (*self == Action::Down || *self == Action::Released),
    {
        self.is_down() || self.is_released()
    }

    pub fn is_down_or_up(&self) -> (r: bool)
        ensures
            r == (*self == Action::Down || *self == Action::Up),
    {
        self.is_down() || self.is_up()
    }

    pub fn is_released_or_up(&self) -> (r: bool)
        ensures
            r == (*self == Action::Released || *self == Action::Up),
    {
        self.is_released() || self.is_up()
    }
}

/// How a window should be opened.
#[derive(Clone, Copy, Debug)]
pub struct WindowConfig<'a> {
    pub width: u32,
    pub height: u32,
    pub title: &'a str,
}

impl<'a> Default for WindowConfig<'a> {
    fn default() -> (r: WindowConfig<'a>)
        ensures
            r.width == 800,
            r.height == 600,
    {
        WindowConfig { width: 800, height: 600, title: "Title" }
    }
}

} // verus!
