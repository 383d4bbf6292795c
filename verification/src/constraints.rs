//! The declarative constraint model.
//!
//! Each element owns one [`Constraints`] component: four declarative
//! rules (x, y, width, height), a per-frame memo for each resolved
//! scalar, and two cumulative scale factors. Elements are addressed by
//! arena handles ([`ElementId`]); symbolic references are normalised by
//! [`check_relative`] before they are looked up.

use vstd::prelude::*;
use crate::rational::Rational;
use crate::rational::frac_int;

verus! {

/// Handle of an element in the layout arena.
pub type ElementId = usize;

/// A symbolic reference to another element, resolved against the
/// querying element before use.
#[derive(Clone, Copy, Debug, PartialEq, Eq, Structural)]
pub enum ElementRef {
    This,
    Parent,
    Screen,
    Other(ElementId),
}

/// Selects which scalar of a referenced scale or dimension feeds a
/// relative constraint.
#[derive(Clone, Copy, Debug, PartialEq, Eq, Structural)]
pub enum Axis {
    X,
    Y,
    Min,
    Max,
    Average,
}

/// Horizontal anchor side.
#[derive(Clone, Copy, Debug, PartialEq, Eq, Structural)]
pub enum SideX {
    FromLeft,
    FromRight,
    InLeft,
    InRight,
}

/// Vertical anchor side.
#[derive(Clone, Copy, Debug, PartialEq, Eq, Structural)]
pub enum SideY {
    FromTop,
    FromBottom,
    InTop,
    InBottom,
}

/// Normalises a symbolic reference against the querying element:
/// `Parent` degrades to `Screen` when there is no parent, and `Other`
/// collapses to `This` or `Parent` when the ids coincide.
pub open spec fn norm_ref(self_id: ElementId, parent: Option<ElementId>, r: ElementRef) -> ElementRef {
    if r == ElementRef::Parent && parent is None {
        ElementRef::Screen
    } else if r matches ElementRef::Other(id) {
        let id = r->0;
        if id == self_id {
            ElementRef::This
        } else if parent == Some(id) {
            ElementRef::Parent
        } else {
            r
        }
    } else {
        r
    }
}

/// Canonicalises `element` in place; see [`norm_ref`] for the rules.
pub fn check_relative(self_id: ElementId, parent: Option<ElementId>, element: &mut ElementRef)
    ensures
        *final(element) == norm_ref(self_id, parent, *old(element)),
{
    if *element == ElementRef::Parent && parent.is_none() {
        *element = ElementRef::Screen;
    } else if let ElementRef::Other(id) = *element {
        if id == self_id {
            *element = ElementRef::This;
        } else if let Some(p) = parent {
            if p == id {
                *element = ElementRef::Parent;
            }
        }
    }
}

/// A horizontal position rule.
#[derive(Clone, Copy, Debug)]
pub enum ConstraintX {
    Pixel { value: Rational, relative: Option<(Axis, ElementRef)>, from: (SideX, ElementRef) },
    PixelCentered { value: Rational, relative: Option<(Axis, ElementRef)>, from: ElementRef },
    Percent { value: Rational, relative: (Axis, ElementRef), from: (SideX, ElementRef) },
    PercentCentered { value: Rational, relative: (Axis, ElementRef), from: ElementRef },
}

/// A vertical position rule.
#[derive(Clone, Copy, Debug)]
pub enum ConstraintY {
    Pixel { value: Rational, relative: Option<(Axis, ElementRef)>, from: (SideY, ElementRef) },
    PixelCentered { value: Rational, relative: Option<(Axis, ElementRef)>, from: ElementRef },
    Percent { value: Rational, relative: (Axis, ElementRef), from: (SideY, ElementRef) },
    PercentCentered { value: Rational, relative: (Axis, ElementRef), from: ElementRef },
}

/// A width rule.
#[derive(Clone, Copy, Debug)]
pub enum ConstraintWidth {
    Pixel { value: Rational, relative: Option<(Axis, ElementRef)> },
    Percent { value: Rational, relative: (Axis, ElementRef) },
}

/// A height rule.
#[derive(Clone, Copy, Debug)]
pub enum ConstraintHeight {
    Pixel { value: Rational, relative: Option<(Axis, ElementRef)> },
    Percent { value: Rational, relative: (Axis, ElementRef) },
}

impl ConstraintX {
    pub fn pixel(value: Rational, from: (SideX, ElementRef)) -> (r: ConstraintX)
        ensures
            r == (ConstraintX::Pixel { value, relative: None, from }),
    {
        ConstraintX::Pixel { value, relative: None, from }
    }

    pub fn pixel_in_left(value: Rational, from: ElementRef) -> (r: ConstraintX)
        ensures
            r == (ConstraintX::Pixel { value, relative: None, from: (SideX::InLeft, from) }),
    {
        ConstraintX::pixel(value, (SideX::InLeft, from))
    }

    pub fn pixel_in_right(value: Rational, from: ElementRef) -> (r: ConstraintX)
        ensures
            r == (ConstraintX::Pixel { value, relative: None, from: (SideX::InRight, from) }),
    {
        ConstraintX::pixel(value, (SideX::InRight, from))
    }

    pub fn pixel_from_left(value: Rational, from: ElementRef) -> (r: ConstraintX)
        ensures
            r == (ConstraintX::Pixel { value, relative: None, from: (SideX::FromLeft, from) }),
    {
        ConstraintX::pixel(value, (SideX::FromLeft, from))
    }

    pub fn pixel_from_right(value: Rational, from: ElementRef) -> (r: ConstraintX)
        ensures
            r == (ConstraintX::Pixel { value, relative: None, from: (SideX::FromRight, from) }),
    {
        ConstraintX::pixel(value, (SideX::FromRight, from))
    }

    pub fn pixel_relative(value: Rational, from: (SideX, ElementRef), relative: (Axis, ElementRef)) -> (r:
        ConstraintX)
        ensures
            r == (ConstraintX::Pixel { value, relative: Some(relative), from }),
    {
        ConstraintX::Pixel { value, relative: Some(relative), from }
    }

    pub fn percent(value: Rational, relative: (Axis, ElementRef), from: (SideX, ElementRef)) -> (r:
        ConstraintX)
        ensures
            r == (ConstraintX::Percent { value, relative, from }),
    {
        ConstraintX::Percent { value, relative, from }
    }

    pub fn pixel_centered(value: Rational, from: ElementRef) -> (r: ConstraintX)
        ensures
            r == (ConstraintX::PixelCentered { value, relative: None, from }),
    {
        ConstraintX::PixelCentered { value, relative: None, from }
    }

    pub fn pixel_relative_centered(value: Rational, from: ElementRef, relative: (Axis, ElementRef)) -> (r:
        ConstraintX)
        ensures
            r == (ConstraintX::PixelCentered { value, relative: Some(relative), from }),
    {
        ConstraintX::PixelCentered { value, relative: Some(relative), from }
    }

    pub fn percent_centered(value: Rational, from: ElementRef, relative: (Axis, ElementRef)) -> (r:
        ConstraintX)
        ensures
            r == (ConstraintX::PercentCentered { value, relative, from }),
    {
        ConstraintX::PercentCentered { value, relative, from }
    }
}

impl Default for ConstraintX {
    /// Zero pixels inside the left edge of the screen.
    fn default() -> (r: ConstraintX)
        ensures
            r matches ConstraintX::Pixel { value, relative, from } && value@ == frac_int(0)
                && relative is None && from == (SideX::InLeft, ElementRef::Screen),
    {
        ConstraintX::pixel_in_left(Rational::zero(), ElementRef::Screen)
    }
}

impl ConstraintY {
    pub fn pixel(value: Rational, from: (SideY, ElementRef)) -> (r: ConstraintY)
        ensures
            r == (ConstraintY::Pixel { value, relative: None, from }),
    {
        ConstraintY::Pixel { value, relative: None, from }
    }

    pub fn pixel_in_top(value: Rational, from: ElementRef) -> (r: ConstraintY)
        ensures
            r == (ConstraintY::Pixel { value, relative: None, from: (SideY::InTop, from) }),
    {
        ConstraintY::pixel(value, (SideY::InTop, from))
    }

    pub fn pixel_in_bottom(value: Rational, from: ElementRef) -> (r: ConstraintY)
        ensures
            r == (ConstraintY::Pixel { value, relative: None, from: (SideY::InBottom, from) }),
    {
        ConstraintY::pixel(value, (SideY::InBottom, from))
    }

    pub fn pixel_from_top(value: Rational, from: ElementRef) -> (r: ConstraintY)
        ensures
            r == (ConstraintY::Pixel { value, relative: None, from: (SideY::FromTop, from) }),
    {
        ConstraintY::pixel(value, (SideY::FromTop, from))
    }

    pub fn pixel_from_bottom(value: Rational, from: ElementRef) -> (r: ConstraintY)
        ensures
            r == (ConstraintY::Pixel { value, relative: None, from: (SideY::FromBottom, from) }),
    {
        ConstraintY::pixel(value, (SideY::FromBottom, from))
    }

    pub fn pixel_relative(value: Rational, from: (SideY, ElementRef), relative: (Axis, ElementRef)) -> (r:
        ConstraintY)
        ensures
            r == (ConstraintY::Pixel { value, relative: Some(relative), from }),
    {
        ConstraintY::Pixel { value, relative: Some(relative), from }
    }

    pub fn percent(value: Rational, relative: (Axis, ElementRef), from: (SideY, ElementRef)) -> (r:
        ConstraintY)
        ensures
            r == (ConstraintY::Percent { value, relative, from }),
    {
        ConstraintY::Percent { value, relative, from }
    }

    pub fn pixel_centered(value: Rational, from: ElementRef) -> (r: ConstraintY)
        ensures
            r == (ConstraintY::PixelCentered { value, relative: None, from }),
    {
        ConstraintY::PixelCentered { value, relative: None, from }
    }

    pub fn pixel_relative_centered(value: Rational, from: ElementRef, relative: (Axis, ElementRef)) -> (r:
        ConstraintY)
        ensures
            r == (ConstraintY::PixelCentered { value, relative: Some(relative), from }),
    {
        ConstraintY::PixelCentered { value, relative: Some(relative), from }
    }

    pub fn percent_centered(value: Rational, from: ElementRef, relative: (Axis, ElementRef)) -> (r:
        ConstraintY)
        ensures
            r == (ConstraintY::PercentCentered { value, relative, from }),
    {
        ConstraintY::PercentCentered { value, relative, from }
    }
}

impl Default for ConstraintY {
    /// Zero pixels inside the top edge of the screen.
    fn default() -> (r: ConstraintY)
        ensures
            r matches ConstraintY::Pixel { value, relative, from } && value@ == frac_int(0)
                && relative is None && from == (SideY::InTop, ElementRef::Screen),
    {
        ConstraintY::pixel_in_top(Rational::zero(), ElementRef::Screen)
    }
}

impl ConstraintWidth {
    pub fn pixel(value: Rational) -> (r: ConstraintWidth)
        ensures
            r == (ConstraintWidth::Pixel { value, relative: None }),
    {
        ConstraintWidth::Pixel { value, relative: None }
    }

    pub fn pixel_relative(value: Rational, relative: (Axis, ElementRef)) -> (r: ConstraintWidth)
        ensures
            r == (ConstraintWidth::Pixel { value, relative: Some(relative) }),
    {
        ConstraintWidth::Pixel { value, relative: Some(relative) }
    }

    pub fn pixel_relative_x(value: Rational, relative: ElementRef) -> (r: ConstraintWidth)
        ensures
            r == (ConstraintWidth::Pixel { value, relative: Some((Axis::X, relative)) }),
    {
        ConstraintWidth::pixel_relative(value, (Axis::X, relative))
    }

    pub fn pixel_relative_y(value: Rational, relative: ElementRef) -> (r: ConstraintWidth)
        ensures
            r == (ConstraintWidth::Pixel { value, relative: Some((Axis::Y, relative)) }),
    {
        ConstraintWidth::pixel_relative(value, (Axis::Y, relative))
    }

    pub fn pixel_relative_min(value: Rational, relative: ElementRef) -> (r: ConstraintWidth)
        ensures
            r == (ConstraintWidth::Pixel { value, relative: Some((Axis::Min, relative)) }),
    {
        ConstraintWidth::pixel_relative(value, (Axis::Min, relative))
    }

    pub fn pixel_relative_max(value: Rational, relative: ElementRef) -> (r: ConstraintWidth)
        ensures
            r == (ConstraintWidth::Pixel { value, relative: Some((Axis::Max, relative)) }),
    {
        ConstraintWidth::pixel_relative(value, (Axis::Max, relative))
    }

    pub fn pixel_relative_avg(value: Rational, relative: ElementRef) -> (r: ConstraintWidth)
        ensures
            r == (ConstraintWidth::Pixel { value, relative: Some((Axis::Average, relative)) }),
    {
        ConstraintWidth::pixel_relative(value, (Axis::Average, relative))
    }

    pub fn percent(value: Rational, relative: (Axis, ElementRef)) -> (r: ConstraintWidth)
        ensures
            r == (ConstraintWidth::Percent { value, relative }),
    {
        ConstraintWidth::Percent { value, relative }
    }

    pub fn percent_x(value: Rational, relative: ElementRef) -> (r: ConstraintWidth)
        ensures
            r == (ConstraintWidth::Percent { value, relative: (Axis::X, relative) }),
    {
        ConstraintWidth::percent(value, (Axis::X, relative))
    }

    pub fn percent_y(value: Rational, relative: ElementRef) -> (r: ConstraintWidth)
        ensures
            r == (ConstraintWidth::Percent { value, relative: (Axis::Y, relative) }),
    {
        ConstraintWidth::percent(value, (Axis::Y, relative))
    }

    pub fn percent_min(value: Rational, relative: ElementRef) -> (r: ConstraintWidth)
        ensures
            r == (ConstraintWidth::Percent { value, relative: (Axis::Min, relative) }),
    {
        ConstraintWidth::percent(value, (Axis::Min, relative))
    }

    pub fn percent_max(value: Rational, relative: ElementRef) -> (r: ConstraintWidth)
        ensures
            r == (ConstraintWidth::Percent { value, relative: (Axis::Max, relative) }),
    {
        ConstraintWidth::percent(value, (Axis::Max, relative))
    }

    pub fn percent_avg(value: Rational, relative: ElementRef) -> (r: ConstraintWidth)
        ensures
            r == (ConstraintWidth::Percent { value, relative: (Axis::Average, relative) }),
    {
        ConstraintWidth::percent(value, (Axis::Average, relative))
    }
}

impl Default for ConstraintWidth {
    /// One raw pixel.
    fn default() -> (r: ConstraintWidth)
        ensures
            r matches ConstraintWidth::Pixel { value, relative } && value@ == frac_int(1)
                && relative is None,
    {
        ConstraintWidth::pixel(Rational::one())
    }
}

impl ConstraintHeight {
    pub fn pixel(value: Rational) -> (r: ConstraintHeight)
        ensures
            r == (ConstraintHeight::Pixel { value, relative: None }),
    {
        ConstraintHeight::Pixel { value, relative: None }
    }

    pub fn pixel_relative(value: Rational, relative: (Axis, ElementRef)) -> (r: ConstraintHeight)
        ensures
            r == (ConstraintHeight::Pixel { value, relative: Some(relative) }),
    {
        ConstraintHeight::Pixel { value, relative: Some(relative) }
    }

    pub fn pixel_relative_x(value: Rational, relative: ElementRef) -> (r: ConstraintHeight)
        ensures
            r == (ConstraintHeight::Pixel { value, relative: Some((Axis::X, relative)) }),
    {
        ConstraintHeight::pixel_relative(value, (Axis::X, relative))
    }

    pub fn pixel_relative_y(value: Rational, relative: ElementRef) -> (r: ConstraintHeight)
        ensures
            r == (ConstraintHeight::Pixel { value, relative: Some((Axis::Y, relative)) }),
    {
        ConstraintHeight::pixel_relative(value, (Axis::Y, relative))
    }

    pub fn pixel_relative_min(value: Rational, relative: ElementRef) -> (r: ConstraintHeight)
        ensures
            r == (ConstraintHeight::Pixel { value, relative: Some((Axis::Min, relative)) }),
    {
        ConstraintHeight::pixel_relative(value, (Axis::Min, relative))
    }

    pub fn pixel_relative_max(value: Rational, relative: ElementRef) -> (r: ConstraintHeight)
        ensures
            r == (ConstraintHeight::Pixel { value, relative: Some((Axis::Max, relative)) }),
    {
        ConstraintHeight::pixel_relative(value, (Axis::Max, relative))
    }

    pub fn pixel_relative_avg(value: Rational, relative: ElementRef) -> (r: ConstraintHeight)
        ensures
            r == (ConstraintHeight::Pixel { value, relative: Some((Axis::Average, relative)) }),
    {
        ConstraintHeight::pixel_relative(value, (Axis::Average, relative))
    }

    pub fn percent(value: Rational, relative: (Axis, ElementRef)) -> (r: ConstraintHeight)
        ensures
            r == (ConstraintHeight::Percent { value, relative }),
    {
        ConstraintHeight::Percent { value, relative }
    }

    pub fn percent_relative_x(value: Rational, relative: ElementRef) -> (r: ConstraintHeight)
        ensures
            r == (ConstraintHeight::Percent { value, relative: (Axis::X, relative) }),
    {
        ConstraintHeight::percent(value, (Axis::X, relative))
    }

    pub fn percent_relative_y(value: Rational, relative: ElementRef) -> (r: ConstraintHeight)
        ensures
            r == (ConstraintHeight::Percent { value, relative: (Axis::Y, relative) }),
    {
        ConstraintHeight::percent(value, (Axis::Y, relative))
    }

    pub fn percent_relative_min(value: Rational, relative: ElementRef) -> (r: ConstraintHeight)
        ensures
            r == (ConstraintHeight::Percent { value, relative: (Axis::Min, relative) }),
    {
        ConstraintHeight::percent(value, (Axis::Min, relative))
    }

    pub fn percent_relative_max(value: Rational, relative: ElementRef) -> (r: ConstraintHeight)
        ensures
            r == (ConstraintHeight::Percent { value, relative: (Axis::Max, relative) }),
    {
        ConstraintHeight::percent(value, (Axis::Max, relative))
    }

    pub fn percent_relative_avg(value: Rational, relative: ElementRef) -> (r: ConstraintHeight)
        ensures
            r == (ConstraintHeight::Percent { value, relative: (Axis::Average, relative) }),
    {
        ConstraintHeight::percent(value, (Axis::Average, relative))
    }
}

impl Default for ConstraintHeight {
    /// One raw pixel.
    fn default() -> (r: ConstraintHeight)
        ensures
            r matches ConstraintHeight::Pixel { value, relative } && value@ == frac_int(1)
                && relative is None,
    {
        ConstraintHeight::pixel(Rational::one())
    }
}

/// The per-frame life of one resolved scalar: `Calculating` marks an
/// evaluation in progress and is how a dependency cycle is caught.
#[derive(Clone, Copy, Debug)]
pub enum ConstraintState {
    Unknown,
    Calculating,
    Calculated(Rational),
}

impl ConstraintState {
    /// The resolved value; callers must know the state is `Calculated`.
    pub fn unwrap(self) -> (r: Rational)
        requires
            self is Calculated,
        ensures
            r == self->0,
    {
        match self {
            ConstraintState::Calculated(value) => value,
            _ => unreached(),
        }
    }
}

/// The screen as seen by the layout engine: pixel dimensions and the
/// DPI/resize scale ratios, written by the windowing layer on resize.
#[derive(Clone, Copy, Debug)]
pub struct ScreenProperty {
    pub width: u32,
    pub height: u32,
    pub scale_x: Rational,
    pub scale_y: Rational,
}

/// The layout component of one element.
#[derive(Clone, Copy, Debug)]
pub struct Constraints {
    /// The owning element's handle, bound once via [`Constraints::apply_to`];
    /// a box that was never applied resolves to the defaults.
    pub parent: Option<ElementId>,
    pub constraint_x: ConstraintX,
    pub constraint_y: ConstraintY,
    pub constraint_width: ConstraintWidth,
    pub constraint_height: ConstraintHeight,
    pub last_width: ConstraintState,
    pub last_height: ConstraintState,
    pub x: ConstraintState,
    pub y: ConstraintState,
    pub width: ConstraintState,
    pub height: ConstraintState,
    pub scale_x: Rational,
    pub scale_y: Rational,
}

impl Constraints {
    pub fn new(
        constraint_x: ConstraintX,
        constraint_y: ConstraintY,
        constraint_width: ConstraintWidth,
        constraint_height: ConstraintHeight,
    ) -> (r: Constraints)
        ensures
            r.parent is None,
            r.constraint_x == constraint_x,
            r.constraint_y == constraint_y,
            r.constraint_width == constraint_width,
            r.constraint_height == constraint_height,
            r.last_width is Unknown,
            r.last_height is Unknown,
            r.x is Unknown,
            r.y is Unknown,
            r.width is Unknown,
            r.height is Unknown,
            r.scale_x@ == frac_int(1),
            r.scale_y@ == frac_int(1),
    {
        Constraints {
            parent: None,
            constraint_x,
            constraint_y,
            constraint_width,
            constraint_height,
            last_width: ConstraintState::Unknown,
            last_height: ConstraintState::Unknown,
            x: ConstraintState::Unknown,
            y: ConstraintState::Unknown,
            width: ConstraintState::Unknown,
            height: ConstraintState::Unknown,
            scale_x: Rational::one(),
            scale_y: Rational::one(),
        }
    }

    /// Binds this box to the element that owns it; needed for the
    /// self-reference checks during evaluation.
    pub fn apply_to(&mut self, parent: ElementId)
        ensures
            *final(self) == (Constraints { parent: Some(parent), ..*old(self) }),
    {
        self.parent = Some(parent);
    }

    /// Opens a new frame: snapshots the resolved sizes into `last_*`
    /// and forgets all four memos. The scale factors are deliberately
    /// not reset; they accumulate across frames.
    pub fn prepare(&mut self)
        ensures
            *final(self) == (Constraints {
                last_width: old(self).width,
                last_height: old(self).height,
                x: ConstraintState::Unknown,
                y: ConstraintState::Unknown,
                width: ConstraintState::Unknown,
                height: ConstraintState::Unknown,
                ..*old(self)
            }),
    {
        self.last_width = self.width;
        self.last_height = self.height;
        self.x = ConstraintState::Unknown;
        self.y = ConstraintState::Unknown;
        self.width = ConstraintState::Unknown;
        self.height = ConstraintState::Unknown;
    }
}

impl Default for Constraints {
    fn default() -> (r: Constraints)
        ensures
            r.parent is None,
            r.constraint_x matches ConstraintX::Pixel { value, relative, from }
                && value@ == frac_int(0) && relative is None
                && from == (SideX::InLeft, ElementRef::Screen),
            r.constraint_y matches ConstraintY::Pixel { value, relative, from }
                && value@ == frac_int(0) && relative is None
                && from == (SideY::InTop, ElementRef::Screen),
            r.constraint_width matches ConstraintWidth::Pixel { value, relative }
                && value@ == frac_int(1) && relative is None,
            r.constraint_height matches ConstraintHeight::Pixel { value, relative }
                && value@ == frac_int(1) && relative is None,
            r.last_width is Unknown,
            r.last_height is Unknown,
            r.x is Unknown,
            r.y is Unknown,
            r.width is Unknown,
            r.height is Unknown,
            r.scale_x@ == frac_int(1),
            r.scale_y@ == frac_int(1),
    {
        Constraints::new(
            ConstraintX::default(),
            ConstraintY::default(),
            ConstraintWidth::default(),
            ConstraintHeight::default(),
        )
    }
}

} // verus!
