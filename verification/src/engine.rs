//! The layout engine: an arena of elements and the pull-based
//! constraint evaluators.
//!
//! Once per frame the driver calls [`prepare_elements`]; afterwards any
//! consumer may query [`UISystem::get_x`], [`UISystem::get_y`],
//! [`UISystem::get_width`] or [`UISystem::get_height`], which lazily
//! resolve the element's constraints, pulling values from other
//! elements' caches as needed. A self-referential anchor produces a
//! warning and a safe default; a genuine dependency cycle is reported
//! as [`LayoutError::Recursive`].
//!
//! The two position evaluators and the two size evaluators are each a
//! single routine parameterised by [`Dir`]; the anchor side, the
//! optional relative axis and the reference kind are handled as three
//! orthogonal choices.
//!
//! Errors are fatal by design: after an `Err` the frame's caches may
//! be left mid-evaluation, and the next [`prepare_elements`] restores
//! a clean frame. Within a frame, every query is memoised and
//! idempotent, and every resolved slot satisfies its rule over the
//! final state ([`pos_ok`], [`size_ok`] via [`evolves`]).
//!
//! Success is owed, not merely permitted, whenever a rule is *ready*:
//! everything it reads is already resolved in the starting state and
//! every exact intermediate is representable ([`pos_ready`],
//! [`size_ready`]); the owed result is [`pos_ready_val`] /
//! [`size_ready_val`]. A rule whose dependencies are still unresolved
//! becomes ready as those dependencies are queried (or were resolved
//! earlier in the frame), so success propagates along any acyclic
//! chain one query at a time.

use vstd::prelude::*;
use crate::rational::Rational;
use crate::rational::Frac;
use crate::rational::frac_int;
use crate::rational::frac_add;
use crate::rational::frac_sub;
use crate::rational::frac_mul;
use crate::rational::frac_div;
use crate::rational::frac_half;
use crate::rational::frac_min;
use crate::rational::frac_max;
use crate::rational::frac_avg;
use crate::rational::frac_fits;
use crate::constraints::Axis;
use crate::constraints::ConstraintHeight;
use crate::constraints::ConstraintState;
use crate::constraints::ConstraintWidth;
use crate::constraints::ConstraintX;
use crate::constraints::ConstraintY;
use crate::constraints::Constraints;
use crate::constraints::ElementId;
use crate::constraints::ElementRef;
use crate::constraints::ScreenProperty;
use crate::constraints::SideX;
use crate::constraints::SideY;
use crate::constraints::check_relative;
use crate::constraints::norm_ref;

verus! {

/// Which of the two layout directions a query concerns.
#[derive(Clone, Copy, Debug, PartialEq, Eq, Structural)]
pub enum Dir {
    Horizontal,
    Vertical,
}

pub open spec fn flip(dir: Dir) -> Dir {
    match dir {
        Dir::Horizontal => Dir::Vertical,
        Dir::Vertical => Dir::Horizontal,
    }
}

/// Exec mirror of [`flip`].
fn flip_dir(dir: Dir) -> (r: Dir)
    ensures
        r == flip(dir),
{
    match dir {
        Dir::Horizontal => Dir::Vertical,
        Dir::Vertical => Dir::Horizontal,
    }
}

/// How an evaluation can fail. All three are fatal by design: the
/// caller is expected to stop rather than retry, since re-evaluating
/// an unchanged constraint graph reproduces the same result.
#[derive(Clone, Copy, Debug, PartialEq, Eq, Structural)]
pub enum LayoutError {
    /// A cache was observed in the `Calculating` state: the constraint
    /// graph is cyclic.
    Recursive(ElementId),
    /// A reference names an element outside the arena.
    MissingElement(ElementId),
    /// An exact intermediate value left the representable range.
    Overflow,
}

/// The z-order component of an element.
#[derive(Clone, Copy, Debug, PartialEq, Eq, Structural)]
pub struct ZIndexComponent(pub i32);

/// The tree parent of an element, if any; a parentless element is
/// rooted directly to the screen.
#[derive(Clone, Copy, Debug, PartialEq, Eq, Structural)]
pub struct ParentComponent(pub Option<ElementId>);

/// The scene an element belongs to, if any.
#[derive(Clone, Debug)]
pub struct SceneComponent(pub Option<u64>);

/// Shared bookkeeping for drawable components attached to an element.
#[derive(Clone, Copy, Debug)]
pub struct UIComponentBase {
    pub parent: Option<ElementId>,
    pub z_index: i32,
}

impl Default for UIComponentBase {
    fn default() -> (r: UIComponentBase)
        ensures
            r.parent is None,
            r.z_index == 0,
    {
        UIComponentBase { parent: None, z_index: 0 }
    }
}

/// One element of the arena: its layout component plus the default
/// components every element carries.
#[derive(Clone, Debug)]
pub struct UIElement {
    pub constraints: Constraints,
    pub parent: ParentComponent,
    pub z_index: ZIndexComponent,
    pub scene: SceneComponent,
}

/// The arena of UI elements together with the screen description.
pub struct UISystem {
    pub screen: ScreenProperty,
    pub elements: Vec<UIElement>,
    /// Handles of elements for which a self-reference warning was
    /// raised, in order of occurrence.
    pub warnings: Vec<ElementId>,
}

// ---------------------------------------------------------------------
// Spec layer: reading one element
// ---------------------------------------------------------------------

pub open spec fn pos_slot(el: UIElement, dir: Dir) -> ConstraintState {
    match dir {
        Dir::Horizontal => el.constraints.x,
        Dir::Vertical => el.constraints.y,
    }
}

pub open spec fn size_slot(el: UIElement, dir: Dir) -> ConstraintState {
    match dir {
        Dir::Horizontal => el.constraints.width,
        Dir::Vertical => el.constraints.height,
    }
}

pub open spec fn last_slot(el: UIElement, dir: Dir) -> ConstraintState {
    match dir {
        Dir::Horizontal => el.constraints.last_width,
        Dir::Vertical => el.constraints.last_height,
    }
}

pub open spec fn scale_val(el: UIElement, dir: Dir) -> Rational {
    match dir {
        Dir::Horizontal => el.constraints.scale_x,
        Dir::Vertical => el.constraints.scale_y,
    }
}

/// The value of a `Calculated` slot.
pub open spec fn st_val(s: ConstraintState) -> Frac {
    (s->0)@
}

/// Whether the slots that feed `axis` of an element's dimension (or
/// its scale, which is derived from the same slots) are resolved.
pub open spec fn dim_defined(el: UIElement, axis: Axis) -> bool {
    match axis {
        Axis::X => el.constraints.width is Calculated,
        Axis::Y => el.constraints.height is Calculated,
        _ => el.constraints.width is Calculated && el.constraints.height is Calculated,
    }
}

/// The `axis` selection of an element's resolved dimensions.
pub open spec fn elem_dim(el: UIElement, axis: Axis) -> Frac {
    match axis {
        Axis::X => st_val(el.constraints.width),
        Axis::Y => st_val(el.constraints.height),
        Axis::Min => frac_min(st_val(el.constraints.width), st_val(el.constraints.height)),
        Axis::Max => frac_max(st_val(el.constraints.width), st_val(el.constraints.height)),
        Axis::Average => frac_avg(st_val(el.constraints.width), st_val(el.constraints.height)),
    }
}

/// The `axis` selection of an element's cumulative scale factors.
pub open spec fn elem_scale(el: UIElement, axis: Axis) -> Frac {
    match axis {
        Axis::X => el.constraints.scale_x@,
        Axis::Y => el.constraints.scale_y@,
        Axis::Min => frac_min(el.constraints.scale_x@, el.constraints.scale_y@),
        Axis::Max => frac_max(el.constraints.scale_x@, el.constraints.scale_y@),
        Axis::Average => frac_avg(el.constraints.scale_x@, el.constraints.scale_y@),
    }
}

/// The `axis` selection of the screen's pixel dimensions.
pub open spec fn screen_dim(sp: ScreenProperty, axis: Axis) -> Frac {
    match axis {
        Axis::X => frac_int(sp.width as int),
        Axis::Y => frac_int(sp.height as int),
        Axis::Min => frac_int(if sp.width <= sp.height { sp.width as int } else { sp.height as int }),
        Axis::Max => frac_int(if sp.width <= sp.height { sp.height as int } else { sp.width as int }),
        Axis::Average => frac_half(frac_int(sp.width as int + sp.height as int)),
    }
}

/// The `axis` selection of the screen's scale ratios.
pub open spec fn screen_scale(sp: ScreenProperty, axis: Axis) -> Frac {
    match axis {
        Axis::X => sp.scale_x@,
        Axis::Y => sp.scale_y@,
        Axis::Min => frac_min(sp.scale_x@, sp.scale_y@),
        Axis::Max => frac_max(sp.scale_x@, sp.scale_y@),
        Axis::Average => frac_avg(sp.scale_x@, sp.scale_y@),
    }
}

/// The screen's dimension along a layout direction.
pub open spec fn screen_len(sp: ScreenProperty, dir: Dir) -> Frac {
    match dir {
        Dir::Horizontal => frac_int(sp.width as int),
        Dir::Vertical => frac_int(sp.height as int),
    }
}

// ---------------------------------------------------------------------
// Spec layer: constraint shapes
// ---------------------------------------------------------------------

/// The side-based relationship a position rule uses, with the two axes
/// folded together (left/top are "low", right/bottom are "high").
#[derive(Clone, Copy, Debug, PartialEq, Eq, Structural)]
pub enum Anchor {
    FromLow,
    FromHigh,
    InLow,
    InHigh,
    Centered,
}

/// A position rule with the orthogonal choices made explicit: the
/// literal value, the optional relative axis, the anchor reference and
/// side, and whether the value is scale-based (pixel) or
/// dimension-based (percent).
#[derive(Clone, Copy, Debug)]
pub struct PosRule {
    pub value: Rational,
    pub relative: Option<(Axis, ElementRef)>,
    pub from_ref: ElementRef,
    pub side: Anchor,
    pub percent: bool,
}

/// A size rule in the same explicit form.
#[derive(Clone, Copy, Debug)]
pub struct SizeRule {
    pub value: Rational,
    pub relative: Option<(Axis, ElementRef)>,
    pub percent: bool,
}

pub open spec fn side_x(s: SideX) -> Anchor {
    match s {
        SideX::FromLeft => Anchor::FromLow,
        SideX::FromRight => Anchor::FromHigh,
        SideX::InLeft => Anchor::InLow,
        SideX::InRight => Anchor::InHigh,
    }
}

pub open spec fn side_y(s: SideY) -> Anchor {
    match s {
        SideY::FromTop => Anchor::FromLow,
        SideY::FromBottom => Anchor::FromHigh,
        SideY::InTop => Anchor::InLow,
        SideY::InBottom => Anchor::InHigh,
    }
}

pub open spec fn x_rule(c: ConstraintX) -> PosRule {
    match c {
        ConstraintX::Pixel { value, relative, from } => PosRule {
            value,
            relative,
            from_ref: from.1,
            side: side_x(from.0),
            percent: false,
        },
        ConstraintX::PixelCentered { value, relative, from } => PosRule {
            value,
            relative,
            from_ref: from,
            side: Anchor::Centered,
            percent: false,
        },
        ConstraintX::Percent { value, relative, from } => PosRule {
            value,
            relative: Some(relative),
            from_ref: from.1,
            side: side_x(from.0),
            percent: true,
        },
        ConstraintX::PercentCentered { value, relative, from } => PosRule {
            value,
            relative: Some(relative),
            from_ref: from,
            side: Anchor::Centered,
            percent: true,
        },
    }
}

pub open spec fn y_rule(c: ConstraintY) -> PosRule {
    match c {
        ConstraintY::Pixel { value, relative, from } => PosRule {
            value,
            relative,
            from_ref: from.1,
            side: side_y(from.0),
            percent: false,
        },
        ConstraintY::PixelCentered { value, relative, from } => PosRule {
            value,
            relative,
            from_ref: from,
            side: Anchor::Centered,
            percent: false,
        },
        ConstraintY::Percent { value, relative, from } => PosRule {
            value,
            relative: Some(relative),
            from_ref: from.1,
            side: side_y(from.0),
            percent: true,
        },
        ConstraintY::PercentCentered { value, relative, from } => PosRule {
            value,
            relative: Some(relative),
            from_ref: from,
            side: Anchor::Centered,
            percent: true,
        },
    }
}

pub open spec fn w_rule(c: ConstraintWidth) -> SizeRule {
    match c {
        ConstraintWidth::Pixel { value, relative } => SizeRule { value, relative, percent: false },
        ConstraintWidth::Percent { value, relative } => SizeRule {
            value,
            relative: Some(relative),
            percent: true,
        },
    }
}

pub open spec fn h_rule(c: ConstraintHeight) -> SizeRule {
    match c {
        ConstraintHeight::Pixel { value, relative } => SizeRule { value, relative, percent: false },
        ConstraintHeight::Percent { value, relative } => SizeRule {
            value,
            relative: Some(relative),
            percent: true,
        },
    }
}

pub open spec fn pos_rule_of(el: UIElement, dir: Dir) -> PosRule {
    match dir {
        Dir::Horizontal => x_rule(el.constraints.constraint_x),
        Dir::Vertical => y_rule(el.constraints.constraint_y),
    }
}

pub open spec fn size_rule_of(el: UIElement, dir: Dir) -> SizeRule {
    match dir {
        Dir::Horizontal => w_rule(el.constraints.constraint_width),
        Dir::Vertical => h_rule(el.constraints.constraint_height),
    }
}

// ---------------------------------------------------------------------
// Spec layer: the resolved-value relations
// ---------------------------------------------------------------------

/// The axis of a relative selector known to be present.
pub open spec fn rel_axis(relative: Option<(Axis, ElementRef)>) -> Axis {
    let pair = relative->0;
    pair.0
}

/// The arena index a normalised non-screen reference points at.
pub open spec fn ref_target(nr: ElementRef, j: int, par: Option<ElementId>) -> int {
    match nr {
        ElementRef::This => j,
        ElementRef::Parent => par->0 as int,
        ElementRef::Other(id) => id as int,
        ElementRef::Screen => j,
    }
}

/// Whether the relative part of a rule is resolved in state `s`.
pub open spec fn offset_defined(
    s: UISystem,
    j: int,
    own: ElementId,
    par: Option<ElementId>,
    relative: Option<(Axis, ElementRef)>,
) -> bool {
    match relative {
        None => true,
        Some((axis, rr)) => {
            let nr = norm_ref(own, par, rr);
            match nr {
                ElementRef::Screen => true,
                ElementRef::This => dim_defined(s.elements@[j], axis),
                ElementRef::Parent => par is Some && 0 <= par->0 < s.elements@.len()
                    && dim_defined(s.elements@[par->0 as int], axis),
                ElementRef::Other(id) => 0 <= id < s.elements@.len() && dim_defined(
                    s.elements@[id as int],
                    axis,
                ),
            }
        },
    }
}

/// The raw offset a rule contributes: the literal value, the
/// scale-adjusted pixel value, or the dimension-adjusted percent value.
pub open spec fn offset_val(
    s: UISystem,
    j: int,
    own: ElementId,
    par: Option<ElementId>,
    relative: Option<(Axis, ElementRef)>,
    value: Rational,
    percent: bool,
) -> Frac {
    match relative {
        None => value@,
        Some((axis, rr)) => {
            let nr = norm_ref(own, par, rr);
            let src = if nr == ElementRef::Screen {
                if percent {
                    screen_dim(s.screen, axis)
                } else {
                    screen_scale(s.screen, axis)
                }
            } else {
                let t = ref_target(nr, j, par);
                if percent {
                    elem_dim(s.elements@[t], axis)
                } else {
                    elem_scale(s.elements@[t], axis)
                }
            };
            frac_mul(value@, src)
        },
    }
}

/// Whether the anchor target's position along `dir` is resolved.
pub open spec fn anchor_pos_defined(s: UISystem, nf: ElementRef, par: Option<ElementId>, dir: Dir) -> bool {
    match nf {
        ElementRef::Screen => true,
        ElementRef::Parent => par is Some && 0 <= par->0 < s.elements@.len() && pos_slot(
            s.elements@[par->0 as int],
            dir,
        ) is Calculated,
        ElementRef::Other(id) => 0 <= id < s.elements@.len() && pos_slot(
            s.elements@[id as int],
            dir,
        ) is Calculated,
        ElementRef::This => false,
    }
}

pub open spec fn anchor_pos(s: UISystem, nf: ElementRef, par: Option<ElementId>, dir: Dir) -> Frac {
    match nf {
        ElementRef::Screen => frac_int(0),
        _ => st_val(pos_slot(s.elements@[ref_target(nf, 0, par)], dir)),
    }
}

/// Whether the anchor target's size along `dir` is resolved.
pub open spec fn anchor_size_defined(s: UISystem, nf: ElementRef, par: Option<ElementId>, dir: Dir) -> bool {
    match nf {
        ElementRef::Screen => true,
        ElementRef::Parent => par is Some && 0 <= par->0 < s.elements@.len() && size_slot(
            s.elements@[par->0 as int],
            dir,
        ) is Calculated,
        ElementRef::Other(id) => 0 <= id < s.elements@.len() && size_slot(
            s.elements@[id as int],
            dir,
        ) is Calculated,
        ElementRef::This => false,
    }
}

pub open spec fn anchor_size(s: UISystem, nf: ElementRef, par: Option<ElementId>, dir: Dir) -> Frac {
    match nf {
        ElementRef::Screen => screen_len(s.screen, dir),
        _ => st_val(size_slot(s.elements@[ref_target(nf, 0, par)], dir)),
    }
}

/// The anchor geometry functions, shared by both axes: `ap` is the
/// anchor's position, `asz` its size, `ssz` this element's own size,
/// `off` the rule's offset.
pub open spec fn side_formula(side: Anchor, off: Frac, ap: Frac, asz: Frac, ssz: Frac) -> Frac {
    match side {
        Anchor::FromLow => frac_sub(frac_sub(ap, ssz), off),
        Anchor::FromHigh => frac_add(frac_add(ap, asz), off),
        Anchor::InLow => frac_add(ap, off),
        Anchor::InHigh => frac_sub(frac_sub(frac_add(ap, asz), ssz), off),
        Anchor::Centered => frac_add(frac_add(ap, frac_half(frac_sub(asz, ssz))), off),
    }
}

/// Which inputs each side actually reads.
pub open spec fn side_needs_anchor_size(side: Anchor) -> bool {
    match side {
        Anchor::FromHigh | Anchor::InHigh | Anchor::Centered => true,
        _ => false,
    }
}

pub open spec fn side_needs_self_size(side: Anchor) -> bool {
    match side {
        Anchor::FromLow | Anchor::InHigh | Anchor::Centered => true,
        _ => false,
    }
}

/// The position relation: a `Calculated` position slot of element `j`
/// holds exactly the value its rule prescribes over the state `s`.
#[verifier::opaque]
pub open spec fn pos_value_ok(s: UISystem, j: int, dir: Dir, v: Frac) -> bool {
    let el = s.elements@[j];
    match el.constraints.parent {
        None => v == frac_int(0),
        Some(own) => {
            let par = el.parent.0;
            let rule = pos_rule_of(el, dir);
            let nf = norm_ref(own, par, rule.from_ref);
            if nf == ElementRef::This {
                v == frac_int(0)
            } else {
                &&& offset_defined(s, j, own, par, rule.relative)
                &&& anchor_pos_defined(s, nf, par, dir)
                &&& (side_needs_anchor_size(rule.side) ==> anchor_size_defined(s, nf, par, dir))
                &&& (side_needs_self_size(rule.side) ==> size_slot(el, dir) is Calculated)
                &&& v == side_formula(
                    rule.side,
                    offset_val(s, j, own, par, rule.relative, rule.value, rule.percent),
                    anchor_pos(s, nf, par, dir),
                    anchor_size(s, nf, par, dir),
                    st_val(size_slot(el, dir)),
                )
            }
        },
    }
}

pub open spec fn pos_ok(s: UISystem, j: int, dir: Dir) -> bool {
    pos_slot(s.elements@[j], dir) matches ConstraintState::Calculated(v) ==> pos_value_ok(
        s,
        j,
        dir,
        v@,
    )
}

/// The size relation: a `Calculated` size slot of element `j` holds
/// exactly the value its rule prescribes over the state `s`.
#[verifier::opaque]
pub open spec fn size_value_ok(s: UISystem, j: int, dir: Dir, v: Frac) -> bool {
    let el = s.elements@[j];
    match el.constraints.parent {
        None => v == frac_int(1),
        Some(own) => {
            let par = el.parent.0;
            let rule = size_rule_of(el, dir);
            match rule.relative {
                None => v == rule.value@,
                Some((axis, rr)) => {
                    let nr = norm_ref(own, par, rr);
                    if nr == ElementRef::This {
                        let safe = if dir == Dir::Horizontal {
                            Axis::Y
                        } else {
                            Axis::X
                        };
                        if axis == safe {
                            &&& size_slot(el, flip(dir)) is Calculated
                            &&& v == (if rule.percent {
                                frac_mul(rule.value@, st_val(size_slot(el, flip(dir))))
                            } else {
                                frac_mul(rule.value@, scale_val(el, flip(dir))@)
                            })
                        } else {
                            v == frac_int(1)
                        }
                    } else if nr == ElementRef::Screen {
                        v == (if rule.percent {
                            frac_mul(rule.value@, screen_dim(s.screen, axis))
                        } else {
                            frac_mul(rule.value@, screen_scale(s.screen, axis))
                        })
                    } else {
                        let t = ref_target(nr, j, par);
                        &&& (nr is Parent ==> par is Some)
                        &&& 0 <= t < s.elements@.len()
                        &&& dim_defined(s.elements@[t], axis)
                        &&& v == (if rule.percent {
                            frac_mul(rule.value@, elem_dim(s.elements@[t], axis))
                        } else {
                            frac_mul(rule.value@, elem_scale(s.elements@[t], axis))
                        })
                    }
                },
            }
        },
    }
}

pub open spec fn size_ok(s: UISystem, j: int, dir: Dir) -> bool {
    size_slot(s.elements@[j], dir) matches ConstraintState::Calculated(v) ==> size_value_ok(
        s,
        j,
        dir,
        v@,
    )
}

// ---------------------------------------------------------------------
// Spec layer: when a query owes success
// ---------------------------------------------------------------------
//
// A query must succeed whenever everything its rule reads is already
// resolved in the state it starts from and every exact intermediate
// value is representable. The predicates below say exactly that, in
// closed form over the pre state, and the matching value functions
// give the result that is then owed.

/// Whether the exact mean of two fractions can be computed: the sum
/// and the halved sum must both be representable.
pub open spec fn avg_arith_ok(a: Frac, b: Frac) -> bool {
    frac_fits(frac_add(a, b)) && frac_fits(frac_avg(a, b))
}

/// Whether the axis selection over the screen's scale ratios can be
/// computed; only the average needs intermediate arithmetic.
pub open spec fn screen_scale_ready(sp: ScreenProperty, axis: Axis) -> bool {
    axis == Axis::Average ==> avg_arith_ok(sp.scale_x@, sp.scale_y@)
}

/// Whether the axis selection over an element's dimensions (percent)
/// or scales (pixel) is already resolved and computable.
pub open spec fn source_ready(s: UISystem, t: int, axis: Axis, percent: bool) -> bool {
    &&& dim_defined(s.elements@[t], axis)
    &&& (axis == Axis::Average ==> (if percent {
        avg_arith_ok(
            st_val(s.elements@[t].constraints.width),
            st_val(s.elements@[t].constraints.height),
        )
    } else {
        avg_arith_ok(s.elements@[t].constraints.scale_x@, s.elements@[t].constraints.scale_y@)
    }))
}

/// Whether a rule's offset can be computed from the state as it
/// stands: the relative target resolved, and the scaled value
/// representable.
pub open spec fn offset_ready(
    s: UISystem,
    j: int,
    own: ElementId,
    par: Option<ElementId>,
    relative: Option<(Axis, ElementRef)>,
    value: Rational,
    percent: bool,
) -> bool {
    match relative {
        None => true,
        Some((axis, rr)) => {
            let nr = norm_ref(own, par, rr);
            &&& (match nr {
                ElementRef::Screen => if percent {
                    true
                } else {
                    screen_scale_ready(s.screen, axis)
                },
                ElementRef::This => source_ready(s, j, axis, percent),
                ElementRef::Parent => par is Some && 0 <= par->0 < s.elements@.len()
                    && source_ready(s, par->0 as int, axis, percent),
                ElementRef::Other(id) => 0 <= id < s.elements@.len() && source_ready(
                    s,
                    id as int,
                    axis,
                    percent,
                ),
            })
            &&& frac_fits(offset_val(s, j, own, par, relative, value, percent))
        },
    }
}

/// Whether every exact intermediate of an anchor formula, taken in
/// evaluation order, is representable.
pub open spec fn pos_arith_ok(side: Anchor, off: Frac, ap: Frac, asz: Frac, ssz: Frac) -> bool {
    match side {
        Anchor::FromLow => frac_fits(frac_sub(ap, ssz)) && frac_fits(
            frac_sub(frac_sub(ap, ssz), off),
        ),
        Anchor::FromHigh => frac_fits(frac_add(ap, asz)) && frac_fits(
            frac_add(frac_add(ap, asz), off),
        ),
        Anchor::InLow => frac_fits(frac_add(ap, off)),
        Anchor::InHigh => frac_fits(frac_add(ap, asz)) && frac_fits(
            frac_sub(frac_add(ap, asz), ssz),
        ) && frac_fits(frac_sub(frac_sub(frac_add(ap, asz), ssz), off)),
        Anchor::Centered => frac_fits(frac_sub(asz, ssz)) && frac_fits(frac_half(frac_sub(asz, ssz)))
            && frac_fits(frac_add(ap, frac_half(frac_sub(asz, ssz)))) && frac_fits(
            frac_add(frac_add(ap, frac_half(frac_sub(asz, ssz))), off),
        ),
    }
}

/// A position query owes success when everything its rule reads is
/// already resolved and the arithmetic is representable.
pub open spec fn pos_ready(s: UISystem, e: int, dir: Dir) -> bool {
    let el = s.elements@[e];
    match el.constraints.parent {
        None => true,
        Some(own) => {
            let par = el.parent.0;
            let rule = pos_rule_of(el, dir);
            let nf = norm_ref(own, par, rule.from_ref);
            if nf == ElementRef::This {
                true
            } else {
                &&& offset_ready(s, e, own, par, rule.relative, rule.value, rule.percent)
                &&& anchor_pos_defined(s, nf, par, dir)
                &&& (side_needs_anchor_size(rule.side) ==> anchor_size_defined(s, nf, par, dir))
                &&& (side_needs_self_size(rule.side) ==> size_slot(el, dir) is Calculated)
                &&& pos_arith_ok(
                    rule.side,
                    offset_val(s, e, own, par, rule.relative, rule.value, rule.percent),
                    anchor_pos(s, nf, par, dir),
                    anchor_size(s, nf, par, dir),
                    st_val(size_slot(el, dir)),
                )
            }
        },
    }
}

/// The position a ready query owes.
pub open spec fn pos_ready_val(s: UISystem, e: int, dir: Dir) -> Frac {
    let el = s.elements@[e];
    match el.constraints.parent {
        None => frac_int(0),
        Some(own) => {
            let par = el.parent.0;
            let rule = pos_rule_of(el, dir);
            let nf = norm_ref(own, par, rule.from_ref);
            if nf == ElementRef::This {
                frac_int(0)
            } else {
                side_formula(
                    rule.side,
                    offset_val(s, e, own, par, rule.relative, rule.value, rule.percent),
                    anchor_pos(s, nf, par, dir),
                    anchor_size(s, nf, par, dir),
                    st_val(size_slot(el, dir)),
                )
            }
        },
    }
}

/// Whether the scale update a resolved size `w` triggers can be
/// computed: trivially when no nonzero snapshot exists, else the exact
/// ratio and product must be representable.
pub open spec fn scale_upd_ok(el: UIElement, dir: Dir, w: Frac) -> bool {
    match last_slot(el, dir) {
        ConstraintState::Calculated(lw) => lw@.n == 0 || (frac_fits(frac_div(w, lw@)) && frac_fits(
            frac_mul(scale_val(el, dir)@, frac_div(w, lw@)),
        )),
        _ => true,
    }
}

/// The size a ready query resolves to, before the scale update.
pub open spec fn size_ready_val(s: UISystem, e: int, dir: Dir) -> Frac {
    let el = s.elements@[e];
    match el.constraints.parent {
        None => frac_int(1),
        Some(own) => {
            let par = el.parent.0;
            let rule = size_rule_of(el, dir);
            match rule.relative {
                None => rule.value@,
                Some((axis, rr)) => {
                    let nr = norm_ref(own, par, rr);
                    if nr == ElementRef::This {
                        let safe = if dir == Dir::Horizontal {
                            Axis::Y
                        } else {
                            Axis::X
                        };
                        if axis == safe {
                            if rule.percent {
                                frac_mul(rule.value@, st_val(size_slot(el, flip(dir))))
                            } else {
                                frac_mul(rule.value@, scale_val(el, flip(dir))@)
                            }
                        } else {
                            frac_int(1)
                        }
                    } else if nr == ElementRef::Screen {
                        if rule.percent {
                            frac_mul(rule.value@, screen_dim(s.screen, axis))
                        } else {
                            frac_mul(rule.value@, screen_scale(s.screen, axis))
                        }
                    } else {
                        let t = ref_target(nr, e, par);
                        if rule.percent {
                            frac_mul(rule.value@, elem_dim(s.elements@[t], axis))
                        } else {
                            frac_mul(rule.value@, elem_scale(s.elements@[t], axis))
                        }
                    }
                },
            }
        },
    }
}

/// A size query owes success when everything its rule reads is
/// already resolved, the product is representable, and so is the
/// scale update it triggers.
pub open spec fn size_ready(s: UISystem, e: int, dir: Dir) -> bool {
    let el = s.elements@[e];
    match el.constraints.parent {
        None => scale_upd_ok(el, dir, frac_int(1)),
        Some(own) => {
            let par = el.parent.0;
            let rule = size_rule_of(el, dir);
            match rule.relative {
                None => scale_upd_ok(el, dir, rule.value@),
                Some((axis, rr)) => {
                    let nr = norm_ref(own, par, rr);
                    &&& (match nr {
                        ElementRef::This => {
                            let safe = if dir == Dir::Horizontal {
                                Axis::Y
                            } else {
                                Axis::X
                            };
                            axis == safe ==> size_slot(el, flip(dir)) is Calculated
                        },
                        ElementRef::Screen => if rule.percent {
                            true
                        } else {
                            screen_scale_ready(s.screen, axis)
                        },
                        ElementRef::Parent => par is Some && 0 <= par->0 < s.elements@.len()
                            && source_ready(s, par->0 as int, axis, rule.percent),
                        ElementRef::Other(id) => 0 <= id < s.elements@.len() && source_ready(
                            s,
                            id as int,
                            axis,
                            rule.percent,
                        ),
                    })
                    &&& frac_fits(size_ready_val(s, e, dir))
                    &&& scale_upd_ok(el, dir, size_ready_val(s, e, dir))
                },
            }
        },
    }
}

// ---------------------------------------------------------------------
// Spec layer: how one evaluation step may change the state
// ---------------------------------------------------------------------

/// The fields of an element an evaluation never touches.
pub open spec fn same_static(a: UIElement, b: UIElement) -> bool {
    &&& b.constraints.parent == a.constraints.parent
    &&& b.constraints.constraint_x == a.constraints.constraint_x
    &&& b.constraints.constraint_y == a.constraints.constraint_y
    &&& b.constraints.constraint_width == a.constraints.constraint_width
    &&& b.constraints.constraint_height == a.constraints.constraint_height
    &&& b.constraints.last_width == a.constraints.last_width
    &&& b.constraints.last_height == a.constraints.last_height
    &&& b.parent == a.parent
    &&& b.z_index == a.z_index
    &&& b.scene.0 == a.scene.0
}

/// Within a frame a resolved value never changes, and an evaluation
/// in progress stays in progress until the evaluator that started it
/// resolves it.
pub open spec fn slot_stable(a: ConstraintState, b: ConstraintState) -> bool {
    &&& a is Calculated ==> b == a
    &&& a is Calculating ==> b is Calculating
}

/// The cumulative scale as updated when a size resolves to `w`: it is
/// multiplied by the growth ratio against the snapshot of the previous
/// frame, when such a snapshot exists and is nonzero.
pub open spec fn scale_after(a: UIElement, dir: Dir, w: Frac) -> Frac {
    match last_slot(a, dir) {
        ConstraintState::Calculated(lw) => if lw@.n != 0 {
            frac_mul(scale_val(a, dir)@, frac_div(w, lw@))
        } else {
            scale_val(a, dir)@
        },
        _ => scale_val(a, dir)@,
    }
}

/// How one element's scale may evolve across an evaluation step.
pub open spec fn scale_evolves(a: UIElement, b: UIElement, dir: Dir) -> bool {
    if size_slot(a, dir) is Calculated {
        scale_val(b, dir) == scale_val(a, dir)
    } else if size_slot(b, dir) is Calculated {
        scale_val(b, dir)@ == scale_after(a, dir, st_val(size_slot(b, dir)))
    } else {
        scale_val(b, dir) == scale_val(a, dir)
    }
}

pub open spec fn elem_evolves(a: UIElement, b: UIElement) -> bool {
    &&& same_static(a, b)
    &&& slot_stable(a.constraints.x, b.constraints.x)
    &&& slot_stable(a.constraints.y, b.constraints.y)
    &&& slot_stable(a.constraints.width, b.constraints.width)
    &&& slot_stable(a.constraints.height, b.constraints.height)
    &&& scale_evolves(a, b, Dir::Horizontal)
    &&& scale_evolves(a, b, Dir::Vertical)
}

/// Everything an evaluation step is allowed to do to the system: keep
/// the screen and all declarative state, only resolve caches (never
/// unresolve them), update scales exactly by the growth rule, append
/// warnings, and leave every newly resolved slot consistent with its
/// rule over the resulting state.
pub open spec fn evolves(pre: UISystem, post: UISystem) -> bool {
    &&& post.screen == pre.screen
    &&& post.elements@.len() == pre.elements@.len()
    &&& forall|j: int|
        0 <= j < pre.elements@.len() ==> elem_evolves(
            #[trigger] pre.elements@[j],
            post.elements@[j],
        )
    &&& pre.warnings@.is_prefix_of(post.warnings@)
    &&& forall|j: int|
        0 <= j < pre.elements@.len() ==> {
            &&& (!(#[trigger] pre.elements@[j].constraints.x is Calculated)
                && post.elements@[j].constraints.x is Calculated ==> pos_ok(
                post,
                j,
                Dir::Horizontal,
            ))
            &&& (!(pre.elements@[j].constraints.y is Calculated)
                && post.elements@[j].constraints.y is Calculated ==> pos_ok(post, j, Dir::Vertical))
            &&& (!(pre.elements@[j].constraints.width is Calculated)
                && post.elements@[j].constraints.width is Calculated ==> size_ok(
                post,
                j,
                Dir::Horizontal,
            ))
            &&& (!(pre.elements@[j].constraints.height is Calculated)
                && post.elements@[j].constraints.height is Calculated ==> size_ok(
                post,
                j,
                Dir::Vertical,
            ))
        }
}

/// The weaker relation every consistency argument actually needs: the
/// declarative state and the screen are unchanged, every resolved slot
/// keeps its value, and the scale of an element whose size is resolved
/// is unchanged. Both a whole evaluation step and the single cache
/// write that ends one satisfy it.
pub open spec fn elem_reads_stable(a: UIElement, b: UIElement) -> bool {
    &&& same_static(a, b)
    &&& (a.constraints.x is Calculated ==> b.constraints.x == a.constraints.x)
    &&& (a.constraints.y is Calculated ==> b.constraints.y == a.constraints.y)
    &&& (a.constraints.width is Calculated ==> b.constraints.width == a.constraints.width)
    &&& (a.constraints.height is Calculated ==> b.constraints.height == a.constraints.height)
    &&& (a.constraints.width is Calculated ==> b.constraints.scale_x == a.constraints.scale_x)
    &&& (a.constraints.height is Calculated ==> b.constraints.scale_y == a.constraints.scale_y)
}

pub open spec fn reads_stable(pre: UISystem, post: UISystem) -> bool {
    &&& post.screen == pre.screen
    &&& post.elements@.len() == pre.elements@.len()
    &&& forall|j: int|
        0 <= j < pre.elements@.len() ==> elem_reads_stable(
            #[trigger] pre.elements@[j],
            post.elements@[j],
        )
}

pub proof fn lemma_evolves_implies_reads_stable(a: UISystem, b: UISystem)
    requires
        evolves(a, b),
    ensures
        reads_stable(a, b),
{
    assert forall|j: int| 0 <= j < a.elements@.len() implies elem_reads_stable(
        #[trigger] a.elements@[j],
        b.elements@[j],
    ) by {
        assert(elem_evolves(a.elements@[j], b.elements@[j]));
    }
}

pub proof fn lemma_reads_stable_trans(a: UISystem, b: UISystem, c: UISystem)
    requires
        reads_stable(a, b),
        reads_stable(b, c),
    ensures
        reads_stable(a, c),
{
    assert forall|j: int| 0 <= j < a.elements@.len() implies elem_reads_stable(
        #[trigger] a.elements@[j],
        c.elements@[j],
    ) by {
        assert(elem_reads_stable(a.elements@[j], b.elements@[j]));
        assert(elem_reads_stable(b.elements@[j], c.elements@[j]));
    }
}

pub proof fn lemma_evolves_refl(s: UISystem)
    ensures
        evolves(s, s),
{
}

pub proof fn lemma_evolves_trans(a: UISystem, b: UISystem, c: UISystem)
    requires
        evolves(a, b),
        evolves(b, c),
    ensures
        evolves(a, c),
{
    assert forall|j: int| 0 <= j < a.elements@.len() implies elem_evolves(
        #[trigger] a.elements@[j],
        c.elements@[j],
    ) by {
        assert(elem_evolves(a.elements@[j], b.elements@[j]));
        assert(elem_evolves(b.elements@[j], c.elements@[j]));
    }
    assert(a.warnings@.is_prefix_of(c.warnings@)) by {
        assert(a.warnings@.is_prefix_of(b.warnings@));
        assert(b.warnings@.is_prefix_of(c.warnings@));
    }
    assert forall|j: int| 0 <= j < a.elements@.len() implies {
        &&& (!(#[trigger] a.elements@[j].constraints.x is Calculated)
            && c.elements@[j].constraints.x is Calculated ==> pos_ok(c, j, Dir::Horizontal))
        &&& (!(a.elements@[j].constraints.y is Calculated)
            && c.elements@[j].constraints.y is Calculated ==> pos_ok(c, j, Dir::Vertical))
        &&& (!(a.elements@[j].constraints.width is Calculated)
            && c.elements@[j].constraints.width is Calculated ==> size_ok(c, j, Dir::Horizontal))
        &&& (!(a.elements@[j].constraints.height is Calculated)
            && c.elements@[j].constraints.height is Calculated ==> size_ok(c, j, Dir::Vertical))
    } by {
        assert(elem_evolves(a.elements@[j], b.elements@[j]));
        lemma_evolves_implies_reads_stable(b, c);
        if !(a.elements@[j].constraints.x is Calculated) && c.elements@[j].constraints.x
            is Calculated {
            if b.elements@[j].constraints.x is Calculated {
                assert(pos_ok(b, j, Dir::Horizontal));
                lemma_pos_ok_stable(b, c, j, Dir::Horizontal);
            } else {
                assert(pos_ok(c, j, Dir::Horizontal));
            }
        }
        if !(a.elements@[j].constraints.y is Calculated) && c.elements@[j].constraints.y
            is Calculated {
            if b.elements@[j].constraints.y is Calculated {
                assert(pos_ok(b, j, Dir::Vertical));
                lemma_pos_ok_stable(b, c, j, Dir::Vertical);
            } else {
                assert(pos_ok(c, j, Dir::Vertical));
            }
        }
        if !(a.elements@[j].constraints.width is Calculated) && c.elements@[j].constraints.width
            is Calculated {
            if b.elements@[j].constraints.width is Calculated {
                assert(size_ok(b, j, Dir::Horizontal));
                lemma_size_ok_stable(b, c, j, Dir::Horizontal);
            } else {
                assert(size_ok(c, j, Dir::Horizontal));
            }
        }
        if !(a.elements@[j].constraints.height is Calculated) && c.elements@[j].constraints.height
            is Calculated {
            if b.elements@[j].constraints.height is Calculated {
                assert(size_ok(b, j, Dir::Vertical));
                lemma_size_ok_stable(b, c, j, Dir::Vertical);
            } else {
                assert(size_ok(c, j, Dir::Vertical));
            }
        }
    }
}

/// A resolved slot that satisfies its rule keeps satisfying it across
/// any further evaluation: all the inputs the rule reads are stable.
pub proof fn lemma_pos_ok_stable(a: UISystem, b: UISystem, j: int, dir: Dir)
    requires
        reads_stable(a, b),
        0 <= j < a.elements@.len(),
        pos_ok(a, j, dir),
        pos_slot(a.elements@[j], dir) is Calculated,
    ensures
        pos_ok(b, j, dir),
{
    reveal(pos_value_ok);
    assert(elem_reads_stable(a.elements@[j], b.elements@[j]));
    let el_a = a.elements@[j];
    let el_b = b.elements@[j];
    assert(pos_slot(el_b, dir) == pos_slot(el_a, dir));
    let v = st_val(pos_slot(el_a, dir));
    if el_a.constraints.parent is Some {
        let own = el_a.constraints.parent->0;
        let par = el_a.parent.0;
        let rule = pos_rule_of(el_a, dir);
        assert(pos_rule_of(el_b, dir) == rule);
        let nf = norm_ref(own, par, rule.from_ref);
        if nf != ElementRef::This {
            lemma_offset_stable(a, b, j, own, par, rule.relative, rule.value, rule.percent);
            lemma_anchor_stable(a, b, nf, par, dir);
            assert(side_needs_self_size(rule.side) ==> size_slot(el_b, dir) == size_slot(
                el_a,
                dir,
            ));
        }
    }
}

pub proof fn lemma_size_ok_stable(a: UISystem, b: UISystem, j: int, dir: Dir)
    requires
        reads_stable(a, b),
        0 <= j < a.elements@.len(),
        size_ok(a, j, dir),
        size_slot(a.elements@[j], dir) is Calculated,
    ensures
        size_ok(b, j, dir),
{
    reveal(size_value_ok);
    assert(elem_reads_stable(a.elements@[j], b.elements@[j]));
    let el_a = a.elements@[j];
    let el_b = b.elements@[j];
    assert(size_slot(el_b, dir) == size_slot(el_a, dir));
    if el_a.constraints.parent is Some {
        let own = el_a.constraints.parent->0;
        let par = el_a.parent.0;
        let rule = size_rule_of(el_a, dir);
        assert(size_rule_of(el_b, dir) == rule);
        match rule.relative {
            None => {},
            Some((axis, rr)) => {
                let nr = norm_ref(own, par, rr);
                if nr == ElementRef::This {
                    assert(size_slot(el_b, flip(dir)) == size_slot(el_a, flip(dir)) || !(size_slot(
                        el_a,
                        flip(dir),
                    ) is Calculated));
                    if size_slot(el_a, flip(dir)) is Calculated {
                        assert(scale_val(el_b, flip(dir)) == scale_val(el_a, flip(dir)));
                    }
                } else if nr != ElementRef::Screen {
                    let t = ref_target(nr, j, par);
                    if 0 <= t < a.elements@.len() {
                        lemma_dim_scale_stable(a, b, t, axis);
                    }
                }
            },
        }
    }
}

/// A resolved dimension (and the scale derived from it) is stable.
pub proof fn lemma_dim_scale_stable(a: UISystem, b: UISystem, t: int, axis: Axis)
    requires
        reads_stable(a, b),
        0 <= t < a.elements@.len(),
        dim_defined(a.elements@[t], axis),
    ensures
        dim_defined(b.elements@[t], axis),
        elem_dim(b.elements@[t], axis) == elem_dim(a.elements@[t], axis),
        elem_scale(b.elements@[t], axis) == elem_scale(a.elements@[t], axis),
{
    assert(elem_reads_stable(a.elements@[t], b.elements@[t]));
}

pub proof fn lemma_offset_stable(
    a: UISystem,
    b: UISystem,
    j: int,
    own: ElementId,
    par: Option<ElementId>,
    relative: Option<(Axis, ElementRef)>,
    value: Rational,
    percent: bool,
)
    requires
        reads_stable(a, b),
        0 <= j < a.elements@.len(),
        offset_defined(a, j, own, par, relative),
    ensures
        offset_defined(b, j, own, par, relative),
        offset_val(b, j, own, par, relative, value, percent) == offset_val(
            a,
            j,
            own,
            par,
            relative,
            value,
            percent,
        ),
{
    match relative {
        None => {},
        Some((axis, rr)) => {
            let nr = norm_ref(own, par, rr);
            match nr {
                ElementRef::Screen => {},
                _ => {
                    let t = ref_target(nr, j, par);
                    lemma_dim_scale_stable(a, b, t, axis);
                },
            }
        },
    }
}

pub proof fn lemma_anchor_stable(a: UISystem, b: UISystem, nf: ElementRef, par: Option<ElementId>, dir: Dir)
    requires
        reads_stable(a, b),
        anchor_pos_defined(a, nf, par, dir) || anchor_size_defined(a, nf, par, dir),
    ensures
        anchor_pos_defined(a, nf, par, dir) ==> anchor_pos_defined(b, nf, par, dir) && anchor_pos(
            b,
            nf,
            par,
            dir,
        ) == anchor_pos(a, nf, par, dir),
        anchor_size_defined(a, nf, par, dir) ==> anchor_size_defined(b, nf, par, dir)
            && anchor_size(b, nf, par, dir) == anchor_size(a, nf, par, dir),
{
    match nf {
        ElementRef::Screen => {},
        ElementRef::Parent => {
            if par is Some && 0 <= par->0 < a.elements@.len() {
                assert(elem_reads_stable(a.elements@[par->0 as int], b.elements@[par->0 as int]));
            }
        },
        ElementRef::Other(id) => {
            if 0 <= id < a.elements@.len() {
                assert(elem_reads_stable(a.elements@[id as int], b.elements@[id as int]));
            }
        },
        ElementRef::This => {},
    }
}

} // verus!

verus! {

// ---------------------------------------------------------------------
// Exec layer: rule extraction and state access
// ---------------------------------------------------------------------

fn side_x_exec(s: SideX) -> (r: Anchor)
    ensures
        r == side_x(s),
{
    match s {
        SideX::FromLeft => Anchor::FromLow,
        SideX::FromRight => Anchor::FromHigh,
        SideX::InLeft => Anchor::InLow,
        SideX::InRight => Anchor::InHigh,
    }
}

fn side_y_exec(s: SideY) -> (r: Anchor)
    ensures
        r == side_y(s),
{
    match s {
        SideY::FromTop => Anchor::FromLow,
        SideY::FromBottom => Anchor::FromHigh,
        SideY::InTop => Anchor::InLow,
        SideY::InBottom => Anchor::InHigh,
    }
}

impl UISystem {
    pub fn new(screen: ScreenProperty) -> (r: UISystem)
        ensures
            r.screen == screen,
            r.elements@.len() == 0,
            r.warnings@.len() == 0,
    {
        UISystem { screen, elements: Vec::new(), warnings: Vec::new() }
    }

    pub fn len(&self) -> (r: usize)
        ensures
            r == self.elements@.len(),
    {
        self.elements.len()
    }

    /// Creates a fresh element with default constraints, bound to its
    /// own handle, rooted to the screen and in no scene.
    pub fn add_element(&mut self) -> (id: ElementId)
        ensures
            id == old(self).elements@.len(),
            final(self).elements@.len() == old(self).elements@.len() + 1,
            forall|j: int|
                0 <= j < old(self).elements@.len() ==> final(self).elements@[j] == old(
                    self,
                ).elements@[j],
            final(self).screen == old(self).screen,
            final(self).warnings == old(self).warnings,
            ({
                let el = final(self).elements@[id as int];
                &&& el.constraints.parent == Some(id)
                &&& el.constraints.constraint_x matches ConstraintX::Pixel {
                    value,
                    relative,
                    from,
                } && value@ == frac_int(0) && relative is None && from == (
                    SideX::InLeft,
                    ElementRef::Screen,
                )
                &&& el.constraints.constraint_y matches ConstraintY::Pixel {
                    value,
                    relative,
                    from,
                } && value@ == frac_int(0) && relative is None && from == (
                    SideY::InTop,
                    ElementRef::Screen,
                )
                &&& el.constraints.constraint_width matches ConstraintWidth::Pixel {
                    value,
                    relative,
                } && value@ == frac_int(1) && relative is None
                &&& el.constraints.constraint_height matches ConstraintHeight::Pixel {
                    value,
                    relative,
                } && value@ == frac_int(1) && relative is None
                &&& el.constraints.x is Unknown
                &&& el.constraints.y is Unknown
                &&& el.constraints.width is Unknown
                &&& el.constraints.height is Unknown
                &&& el.constraints.last_width is Unknown
                &&& el.constraints.last_height is Unknown
                &&& el.constraints.scale_x@ == frac_int(1)
                &&& el.constraints.scale_y@ == frac_int(1)
                &&& el.parent.0 is None
                &&& el.z_index.0 == 0
                &&& el.scene.0 is None
            }),
    {
        let id = self.elements.len();
        let mut constraints = Constraints::default();
        constraints.apply_to(id);
        self.elements.push(
            UIElement {
                constraints,
                parent: ParentComponent(None),
                z_index: ZIndexComponent(0),
                scene: SceneComponent(None),
            },
        );
        id
    }
}

/// What [`prepare_elements`] does to each element.
pub open spec fn prepared(el: UIElement) -> UIElement {
    UIElement {
        constraints: Constraints {
            last_width: el.constraints.width,
            last_height: el.constraints.height,
            x: ConstraintState::Unknown,
            y: ConstraintState::Unknown,
            width: ConstraintState::Unknown,
            height: ConstraintState::Unknown,
            ..el.constraints
        },
        ..el
    }
}

/// Opens a new frame: invalidates every element's cache and snapshots
/// the old sizes. Must run for all elements before any query of the
/// new frame.
pub fn prepare_elements(system: &mut UISystem)
    ensures
        final(system).screen == old(system).screen,
        final(system).warnings == old(system).warnings,
        final(system).elements@.len() == old(system).elements@.len(),
        forall|j: int|
            0 <= j < old(system).elements@.len() ==> final(system).elements@[j] == prepared(
                #[trigger] old(system).elements@[j],
            ),
{
    let n = system.elements.len();
    let mut i: usize = 0;
    while i < n
        invariant
            n == system.elements@.len(),
            n == old(system).elements@.len(),
            i <= n,
            system.screen == old(system).screen,
            system.warnings == old(system).warnings,
            forall|j: int| 0 <= j < i ==> system.elements@[j] == prepared(#[trigger] old(system).elements@[j]),
            forall|j: int| i <= j < n ==> system.elements@[j] == old(system).elements@[j],
        decreases n - i,
    {
        system.elements[i].constraints.prepare();
        i = i + 1;
    }
}

// ---------------------------------------------------------------------
// Exec layer: slot reads and writes
// ---------------------------------------------------------------------

impl UISystem {
    fn read_pos_slot(&self, e: ElementId, dir: Dir) -> (r: ConstraintState)
        requires
            e < self.elements@.len(),
        ensures
            r == pos_slot(self.elements@[e as int], dir),
    {
        match dir {
            Dir::Horizontal => self.elements[e].constraints.x,
            Dir::Vertical => self.elements[e].constraints.y,
        }
    }

    fn read_size_slot(&self, e: ElementId, dir: Dir) -> (r: ConstraintState)
        requires
            e < self.elements@.len(),
        ensures
            r == size_slot(self.elements@[e as int], dir),
    {
        match dir {
            Dir::Horizontal => self.elements[e].constraints.width,
            Dir::Vertical => self.elements[e].constraints.height,
        }
    }

    fn read_last_slot(&self, e: ElementId, dir: Dir) -> (r: ConstraintState)
        requires
            e < self.elements@.len(),
        ensures
            r == last_slot(self.elements@[e as int], dir),
    {
        match dir {
            Dir::Horizontal => self.elements[e].constraints.last_width,
            Dir::Vertical => self.elements[e].constraints.last_height,
        }
    }

    fn read_scale(&self, e: ElementId, dir: Dir) -> (r: Rational)
        requires
            e < self.elements@.len(),
        ensures
            r == scale_val(self.elements@[e as int], dir),
    {
        match dir {
            Dir::Horizontal => self.elements[e].constraints.scale_x,
            Dir::Vertical => self.elements[e].constraints.scale_y,
        }
    }

    fn pos_rule_exec(&self, e: ElementId, dir: Dir) -> (r: PosRule)
        requires
            e < self.elements@.len(),
        ensures
            r == pos_rule_of(self.elements@[e as int], dir),
    {
        match dir {
            Dir::Horizontal => match self.elements[e].constraints.constraint_x {
                ConstraintX::Pixel { value, relative, from } => PosRule {
                    value,
                    relative,
                    from_ref: from.1,
                    side: side_x_exec(from.0),
                    percent: false,
                },
                ConstraintX::PixelCentered { value, relative, from } => PosRule {
                    value,
                    relative,
                    from_ref: from,
                    side: Anchor::Centered,
                    percent: false,
                },
                ConstraintX::Percent { value, relative, from } => PosRule {
                    value,
                    relative: Some(relative),
                    from_ref: from.1,
                    side: side_x_exec(from.0),
                    percent: true,
                },
                ConstraintX::PercentCentered { value, relative, from } => PosRule {
                    value,
                    relative: Some(relative),
                    from_ref: from,
                    side: Anchor::Centered,
                    percent: true,
                },
            },
            Dir::Vertical => match self.elements[e].constraints.constraint_y {
                ConstraintY::Pixel { value, relative, from } => PosRule {
                    value,
                    relative,
                    from_ref: from.1,
                    side: side_y_exec(from.0),
                    percent: false,
                },
                ConstraintY::PixelCentered { value, relative, from } => PosRule {
                    value,
                    relative,
                    from_ref: from,
                    side: Anchor::Centered,
                    percent: false,
                },
                ConstraintY::Percent { value, relative, from } => PosRule {
                    value,
                    relative: Some(relative),
                    from_ref: from.1,
                    side: side_y_exec(from.0),
                    percent: true,
                },
                ConstraintY::PercentCentered { value, relative, from } => PosRule {
                    value,
                    relative: Some(relative),
                    from_ref: from,
                    side: Anchor::Centered,
                    percent: true,
                },
            },
        }
    }

    fn size_rule_exec(&self, e: ElementId, dir: Dir) -> (r: SizeRule)
        requires
            e < self.elements@.len(),
        ensures
            r == size_rule_of(self.elements@[e as int], dir),
    {
        match dir {
            Dir::Horizontal => match self.elements[e].constraints.constraint_width {
                ConstraintWidth::Pixel { value, relative } => SizeRule {
                    value,
                    relative,
                    percent: false,
                },
                ConstraintWidth::Percent { value, relative } => SizeRule {
                    value,
                    relative: Some(relative),
                    percent: true,
                },
            },
            Dir::Vertical => match self.elements[e].constraints.constraint_height {
                ConstraintHeight::Pixel { value, relative } => SizeRule {
                    value,
                    relative,
                    percent: false,
                },
                ConstraintHeight::Percent { value, relative } => SizeRule {
                    value,
                    relative: Some(relative),
                    percent: true,
                },
            },
        }
    }
}

/// An element with one position slot replaced.
pub open spec fn with_pos_slot(el: UIElement, dir: Dir, st: ConstraintState) -> UIElement {
    match dir {
        Dir::Horizontal => UIElement {
            constraints: Constraints { x: st, ..el.constraints },
            ..el
        },
        Dir::Vertical => UIElement { constraints: Constraints { y: st, ..el.constraints }, ..el },
    }
}

/// An element with one size slot replaced.
pub open spec fn with_size_slot(el: UIElement, dir: Dir, st: ConstraintState) -> UIElement {
    match dir {
        Dir::Horizontal => UIElement {
            constraints: Constraints { width: st, ..el.constraints },
            ..el
        },
        Dir::Vertical => UIElement {
            constraints: Constraints { height: st, ..el.constraints },
            ..el
        },
    }
}

/// An element with one size slot and the matching scale replaced.
pub open spec fn with_size_and_scale(el: UIElement, dir: Dir, st: ConstraintState, sc: Rational) -> UIElement {
    match dir {
        Dir::Horizontal => UIElement {
            constraints: Constraints { width: st, scale_x: sc, ..el.constraints },
            ..el
        },
        Dir::Vertical => UIElement {
            constraints: Constraints { height: st, scale_y: sc, ..el.constraints },
            ..el
        },
    }
}

impl UISystem {
    /// Flags a position slot as being evaluated; observing this state
    /// again before it resolves is how a cycle is detected.
    fn mark_pos_calculating(&mut self, e: ElementId, dir: Dir)
        requires
            e < old(self).elements@.len(),
            pos_slot(old(self).elements@[e as int], dir) is Unknown,
        ensures
            final(self).screen == old(self).screen,
            final(self).warnings == old(self).warnings,
            final(self).elements@ == old(self).elements@.update(
                e as int,
                with_pos_slot(old(self).elements@[e as int], dir, ConstraintState::Calculating),
            ),
            evolves(*old(self), *final(self)),
    {
        match dir {
            Dir::Horizontal => {
                self.elements[e].constraints.x = ConstraintState::Calculating;
            },
            Dir::Vertical => {
                self.elements[e].constraints.y = ConstraintState::Calculating;
            },
        }
        proof {
            assert forall|j: int| 0 <= j < old(self).elements@.len() implies elem_evolves(
                #[trigger] old(self).elements@[j],
                self.elements@[j],
            ) by {}
        }
    }

    fn mark_size_calculating(&mut self, e: ElementId, dir: Dir)
        requires
            e < old(self).elements@.len(),
            size_slot(old(self).elements@[e as int], dir) is Unknown,
        ensures
            final(self).screen == old(self).screen,
            final(self).warnings == old(self).warnings,
            final(self).elements@ == old(self).elements@.update(
                e as int,
                with_size_slot(old(self).elements@[e as int], dir, ConstraintState::Calculating),
            ),
            evolves(*old(self), *final(self)),
    {
        match dir {
            Dir::Horizontal => {
                self.elements[e].constraints.width = ConstraintState::Calculating;
            },
            Dir::Vertical => {
                self.elements[e].constraints.height = ConstraintState::Calculating;
            },
        }
        proof {
            assert forall|j: int| 0 <= j < old(self).elements@.len() implies elem_evolves(
                #[trigger] old(self).elements@[j],
                self.elements@[j],
            ) by {}
        }
    }

    /// Stores a resolved position. The caller is responsible for the
    /// consistency of the stored value; see [`lemma_store_pos_evolves`].
    fn store_pos(&mut self, e: ElementId, dir: Dir, v: Rational)
        requires
            e < old(self).elements@.len(),
        ensures
            final(self).screen == old(self).screen,
            final(self).warnings == old(self).warnings,
            final(self).elements@ == old(self).elements@.update(
                e as int,
                with_pos_slot(old(self).elements@[e as int], dir, ConstraintState::Calculated(v)),
            ),
    {
        match dir {
            Dir::Horizontal => {
                self.elements[e].constraints.x = ConstraintState::Calculated(v);
            },
            Dir::Vertical => {
                self.elements[e].constraints.y = ConstraintState::Calculated(v);
            },
        }
    }

    /// Stores a resolved size together with the updated scale factor.
    fn store_size(&mut self, e: ElementId, dir: Dir, v: Rational, sc: Rational)
        requires
            e < old(self).elements@.len(),
        ensures
            final(self).screen == old(self).screen,
            final(self).warnings == old(self).warnings,
            final(self).elements@ == old(self).elements@.update(
                e as int,
                with_size_and_scale(
                    old(self).elements@[e as int],
                    dir,
                    ConstraintState::Calculated(v),
                    sc,
                ),
            ),
    {
        match dir {
            Dir::Horizontal => {
                self.elements[e].constraints.width = ConstraintState::Calculated(v);
                self.elements[e].constraints.scale_x = sc;
            },
            Dir::Vertical => {
                self.elements[e].constraints.height = ConstraintState::Calculated(v);
                self.elements[e].constraints.scale_y = sc;
            },
        }
    }

    /// Records a self-reference warning against an element.
    fn push_warning(&mut self, e: ElementId)
        ensures
            final(self).screen == old(self).screen,
            final(self).elements == old(self).elements,
            final(self).warnings@ == old(self).warnings@.push(e),
            evolves(*old(self), *final(self)),
    {
        self.warnings.push(e);
        proof {
            assert forall|j: int| 0 <= j < old(self).elements@.len() implies elem_evolves(
                #[trigger] old(self).elements@[j],
                self.elements@[j],
            ) by {}
            assert(old(self).warnings@.is_prefix_of(self.warnings@));
        }
    }
}

} // verus!

verus! {

/// Resolving one position slot that was being calculated keeps every
/// other read stable.
pub proof fn lemma_store_reads_stable_pos(s2: UISystem, post: UISystem, e: int, dir: Dir, v: Rational)
    requires
        0 <= e < s2.elements@.len(),
        pos_slot(s2.elements@[e], dir) is Calculating,
        post.screen == s2.screen,
        post.elements@ == s2.elements@.update(
            e,
            with_pos_slot(s2.elements@[e], dir, ConstraintState::Calculated(v)),
        ),
    ensures
        reads_stable(s2, post),
{
    assert forall|j: int| 0 <= j < s2.elements@.len() implies elem_reads_stable(
        #[trigger] s2.elements@[j],
        post.elements@[j],
    ) by {
        if j != e {
            assert(post.elements@[j] == s2.elements@[j]);
        }
    }
}

/// Resolving one size slot that was being calculated (together with
/// its scale update) keeps every other read stable.
pub proof fn lemma_store_reads_stable_size(
    s2: UISystem,
    post: UISystem,
    e: int,
    dir: Dir,
    v: Rational,
    sc: Rational,
)
    requires
        0 <= e < s2.elements@.len(),
        size_slot(s2.elements@[e], dir) is Calculating,
        post.screen == s2.screen,
        post.elements@ == s2.elements@.update(
            e,
            with_size_and_scale(s2.elements@[e], dir, ConstraintState::Calculated(v), sc),
        ),
    ensures
        reads_stable(s2, post),
{
    assert forall|j: int| 0 <= j < s2.elements@.len() implies elem_reads_stable(
        #[trigger] s2.elements@[j],
        post.elements@[j],
    ) by {
        if j != e {
            assert(post.elements@[j] == s2.elements@[j]);
        }
    }
}

/// Writing a consistent value into the position slot the evaluation
/// marked at its start completes a legal evaluation step.
pub proof fn lemma_step_store_pos(
    s0: UISystem,
    s2: UISystem,
    post: UISystem,
    e: int,
    dir: Dir,
    v: Rational,
)
    requires
        evolves(s0, s2),
        0 <= e < s0.elements@.len(),
        pos_slot(s0.elements@[e], dir) is Unknown,
        pos_slot(s2.elements@[e], dir) is Calculating,
        post.screen == s2.screen,
        post.warnings == s2.warnings,
        post.elements@ == s2.elements@.update(
            e,
            with_pos_slot(s2.elements@[e], dir, ConstraintState::Calculated(v)),
        ),
        pos_value_ok(post, e, dir, v@),
    ensures
        evolves(s0, post),
{
    let n = s0.elements@.len();
    lemma_store_reads_stable_pos(s2, post, e, dir, v);
    assert forall|j: int| 0 <= j < n implies elem_evolves(
        #[trigger] s0.elements@[j],
        post.elements@[j],
    ) by {
        assert(elem_evolves(s0.elements@[j], s2.elements@[j]));
        if j != e {
            assert(post.elements@[j] == s2.elements@[j]);
        }
    }
    assert(s0.warnings@.is_prefix_of(post.warnings@));
    assert forall|j: int| 0 <= j < n implies {
        &&& (!(#[trigger] s0.elements@[j].constraints.x is Calculated) && post.elements@[j].constraints.x
            is Calculated ==> pos_ok(post, j, Dir::Horizontal))
        &&& (!(s0.elements@[j].constraints.y is Calculated) && post.elements@[j].constraints.y
            is Calculated ==> pos_ok(post, j, Dir::Vertical))
        &&& (!(s0.elements@[j].constraints.width is Calculated) && post.elements@[j].constraints.width
            is Calculated ==> size_ok(post, j, Dir::Horizontal))
        &&& (!(s0.elements@[j].constraints.height is Calculated)
            && post.elements@[j].constraints.height is Calculated ==> size_ok(post, j, Dir::Vertical))
    } by {
        assert(elem_evolves(s0.elements@[j], s2.elements@[j]));
        if !(s0.elements@[j].constraints.x is Calculated) && post.elements@[j].constraints.x
            is Calculated {
            if j == e && dir == Dir::Horizontal {
                assert(pos_ok(post, j, Dir::Horizontal));
            } else {
                assert(s2.elements@[j].constraints.x == post.elements@[j].constraints.x);
                assert(pos_ok(s2, j, Dir::Horizontal));
                lemma_pos_ok_stable(s2, post, j, Dir::Horizontal);
            }
        }
        if !(s0.elements@[j].constraints.y is Calculated) && post.elements@[j].constraints.y
            is Calculated {
            if j == e && dir == Dir::Vertical {
                assert(pos_ok(post, j, Dir::Vertical));
            } else {
                assert(s2.elements@[j].constraints.y == post.elements@[j].constraints.y);
                assert(pos_ok(s2, j, Dir::Vertical));
                lemma_pos_ok_stable(s2, post, j, Dir::Vertical);
            }
        }
        if !(s0.elements@[j].constraints.width is Calculated) && post.elements@[j].constraints.width
            is Calculated {
            assert(s2.elements@[j].constraints.width == post.elements@[j].constraints.width);
            assert(size_ok(s2, j, Dir::Horizontal));
            lemma_size_ok_stable(s2, post, j, Dir::Horizontal);
        }
        if !(s0.elements@[j].constraints.height is Calculated)
            && post.elements@[j].constraints.height is Calculated {
            assert(s2.elements@[j].constraints.height == post.elements@[j].constraints.height);
            assert(size_ok(s2, j, Dir::Vertical));
            lemma_size_ok_stable(s2, post, j, Dir::Vertical);
        }
    }
}

/// Writing a consistent size and its scale update into the slot the
/// evaluation marked at its start completes a legal evaluation step.
pub proof fn lemma_step_store_size(
    s0: UISystem,
    s2: UISystem,
    post: UISystem,
    e: int,
    dir: Dir,
    v: Rational,
    sc: Rational,
)
    requires
        evolves(s0, s2),
        0 <= e < s0.elements@.len(),
        size_slot(s0.elements@[e], dir) is Unknown,
        size_slot(s2.elements@[e], dir) is Calculating,
        post.screen == s2.screen,
        post.warnings == s2.warnings,
        post.elements@ == s2.elements@.update(
            e,
            with_size_and_scale(s2.elements@[e], dir, ConstraintState::Calculated(v), sc),
        ),
        sc@ == scale_after(s2.elements@[e], dir, v@),
        size_value_ok(post, e, dir, v@),
    ensures
        evolves(s0, post),
{
    let n = s0.elements@.len();
    lemma_store_reads_stable_size(s2, post, e, dir, v, sc);
    assert forall|j: int| 0 <= j < n implies elem_evolves(
        #[trigger] s0.elements@[j],
        post.elements@[j],
    ) by {
        assert(elem_evolves(s0.elements@[j], s2.elements@[j]));
        if j != e {
            assert(post.elements@[j] == s2.elements@[j]);
        } else {
            assert(scale_evolves(s0.elements@[e], s2.elements@[e], dir));
            assert(scale_evolves(s0.elements@[e], s2.elements@[e], flip(dir)));
            assert(scale_val(s2.elements@[e], dir) == scale_val(s0.elements@[e], dir));
            assert(last_slot(s2.elements@[e], dir) == last_slot(s0.elements@[e], dir));
            assert(scale_after(s2.elements@[e], dir, v@) == scale_after(s0.elements@[e], dir, v@));
            assert(scale_evolves(s0.elements@[e], post.elements@[e], dir));
            assert(size_slot(post.elements@[e], flip(dir)) == size_slot(s2.elements@[e], flip(dir)));
            assert(scale_val(post.elements@[e], flip(dir)) == scale_val(s2.elements@[e], flip(dir)));
            assert(scale_evolves(s0.elements@[e], post.elements@[e], flip(dir)));
        }
    }
    assert(s0.warnings@.is_prefix_of(post.warnings@));
    assert forall|j: int| 0 <= j < n implies {
        &&& (!(#[trigger] s0.elements@[j].constraints.x is Calculated) && post.elements@[j].constraints.x
            is Calculated ==> pos_ok(post, j, Dir::Horizontal))
        &&& (!(s0.elements@[j].constraints.y is Calculated) && post.elements@[j].constraints.y
            is Calculated ==> pos_ok(post, j, Dir::Vertical))
        &&& (!(s0.elements@[j].constraints.width is Calculated) && post.elements@[j].constraints.width
            is Calculated ==> size_ok(post, j, Dir::Horizontal))
        &&& (!(s0.elements@[j].constraints.height is Calculated)
            && post.elements@[j].constraints.height is Calculated ==> size_ok(post, j, Dir::Vertical))
    } by {
        assert(elem_evolves(s0.elements@[j], s2.elements@[j]));
        if !(s0.elements@[j].constraints.x is Calculated) && post.elements@[j].constraints.x
            is Calculated {
            assert(s2.elements@[j].constraints.x == post.elements@[j].constraints.x);
            assert(pos_ok(s2, j, Dir::Horizontal));
            lemma_pos_ok_stable(s2, post, j, Dir::Horizontal);
        }
        if !(s0.elements@[j].constraints.y is Calculated) && post.elements@[j].constraints.y
            is Calculated {
            assert(s2.elements@[j].constraints.y == post.elements@[j].constraints.y);
            assert(pos_ok(s2, j, Dir::Vertical));
            lemma_pos_ok_stable(s2, post, j, Dir::Vertical);
        }
        if !(s0.elements@[j].constraints.width is Calculated) && post.elements@[j].constraints.width
            is Calculated {
            if j == e && dir == Dir::Horizontal {
                assert(size_ok(post, j, Dir::Horizontal));
            } else {
                assert(s2.elements@[j].constraints.width == post.elements@[j].constraints.width);
                assert(size_ok(s2, j, Dir::Horizontal));
                lemma_size_ok_stable(s2, post, j, Dir::Horizontal);
            }
        }
        if !(s0.elements@[j].constraints.height is Calculated)
            && post.elements@[j].constraints.height is Calculated {
            if j == e && dir == Dir::Vertical {
                assert(size_ok(post, j, Dir::Vertical));
            } else {
                assert(s2.elements@[j].constraints.height == post.elements@[j].constraints.height);
                assert(size_ok(s2, j, Dir::Vertical));
                lemma_size_ok_stable(s2, post, j, Dir::Vertical);
            }
        }
    }
}

} // verus!

verus! {

impl UISystem {
    /// The screen dimension a relative axis selects; never fails.
    fn screen_dim_axis(&self, axis: Axis) -> (r: Rational)
        ensures
            r@ == screen_dim(self.screen, axis),
    {
        match axis {
            Axis::X => Rational::from_int(self.screen.width as i64),
            Axis::Y => Rational::from_int(self.screen.height as i64),
            Axis::Min => {
                if self.screen.width <= self.screen.height {
                    Rational::from_int(self.screen.width as i64)
                } else {
                    Rational::from_int(self.screen.height as i64)
                }
            },
            Axis::Max => {
                if self.screen.width <= self.screen.height {
                    Rational::from_int(self.screen.height as i64)
                } else {
                    Rational::from_int(self.screen.width as i64)
                }
            },
            Axis::Average => {
                let sum = Rational::from_int(
                    (self.screen.width as i64) + (self.screen.height as i64),
                );
                match sum.checked_half() {
                    Some(v) => v,
                    None => unreached(),
                }
            },
        }
    }

    /// The screen scale ratio a relative axis selects.
    fn screen_scale_axis(&self, axis: Axis) -> (r: Result<Rational, LayoutError>)
        ensures
            r matches Ok(v) ==> v@ == screen_scale(self.screen, axis),
            r is Err ==> r == Err::<Rational, LayoutError>(LayoutError::Overflow),
            screen_scale_ready(self.screen, axis) ==> r is Ok,
    {
        match axis {
            Axis::X => Ok(self.screen.scale_x),
            Axis::Y => Ok(self.screen.scale_y),
            Axis::Min => Ok(self.screen.scale_x.min(&self.screen.scale_y)),
            Axis::Max => Ok(self.screen.scale_x.max(&self.screen.scale_y)),
            Axis::Average => {
                match self.screen.scale_x.checked_add(&self.screen.scale_y) {
                    Some(sum) => match sum.checked_half() {
                        Some(v) => Ok(v),
                        None => Err(LayoutError::Overflow),
                    },
                    None => Err(LayoutError::Overflow),
                }
            },
        }
    }

    /// The scale factor an element's size resolution leaves behind:
    /// multiplied by the growth ratio against the previous frame's
    /// snapshot when that snapshot exists and is nonzero.
    fn updated_scale(&self, e: ElementId, dir: Dir, v: Rational) -> (r: Option<Rational>)
        requires
            e < self.elements@.len(),
        ensures
            r matches Some(sc) ==> sc@ == scale_after(self.elements@[e as int], dir, v@),
            !(last_slot(self.elements@[e as int], dir) matches ConstraintState::Calculated(lw)
                && lw@.n != 0) ==> r == Some(scale_val(self.elements@[e as int], dir)),
            scale_upd_ok(self.elements@[e as int], dir, v@) ==> r is Some,
    {
        let last = self.read_last_slot(e, dir);
        match last {
            ConstraintState::Calculated(lw) => {
                if lw.is_zero() {
                    Some(self.read_scale(e, dir))
                } else {
                    match v.checked_div(&lw) {
                        Some(f) => self.read_scale(e, dir).checked_mul(&f),
                        None => None,
                    }
                }
            },
            _ => Some(self.read_scale(e, dir)),
        }
    }

    /// Fetches the `axis` selection of element `t`'s dimensions
    /// (`percent`) or scales (pixel-relative), resolving them on demand.
    fn elem_source(&mut self, t: ElementId, axis: Axis, percent: bool, fuel: u64) -> (r: Result<
        Rational,
        LayoutError,
    >)
        requires
            t < old(self).elements@.len(),
        ensures
            evolves(*old(self), *final(self)),
            r matches Ok(v) ==> dim_defined(final(self).elements@[t as int], axis) && v@ == (
            if percent {
                elem_dim(final(self).elements@[t as int], axis)
            } else {
                elem_scale(final(self).elements@[t as int], axis)
            }),
            source_ready(*old(self), t as int, axis, percent) ==> *final(self) == *old(self) && (
            r matches Ok(v) && v@ == (if percent {
                elem_dim(old(self).elements@[t as int], axis)
            } else {
                elem_scale(old(self).elements@[t as int], axis)
            })),
        decreases fuel, 1int,
    {
        let ghost s0 = *self;
        if percent {
            match axis {
                Axis::X => self.get_size(t, Dir::Horizontal, fuel),
                Axis::Y => self.get_size(t, Dir::Vertical, fuel),
                _ => {
                    let w = match self.get_size(t, Dir::Horizontal, fuel) {
                        Ok(w) => w,
                        Err(er) => {
                            return Err(er);
                        },
                    };
                    let ghost s1 = *self;
                    let h = match self.get_size(t, Dir::Vertical, fuel) {
                        Ok(h) => h,
                        Err(er) => {
                            proof {
                                lemma_evolves_trans(s0, s1, *self);
                            }
                            return Err(er);
                        },
                    };
                    proof {
                        lemma_evolves_trans(s0, s1, *self);
                        assert(elem_evolves(s1.elements@[t as int], self.elements@[t as int]));
                        assert(size_slot(self.elements@[t as int], Dir::Horizontal)
                            == ConstraintState::Calculated(w));
                    }
                    match axis {
                        Axis::Min => Ok(w.min(&h)),
                        Axis::Max => Ok(w.max(&h)),
                        _ => {
                            match w.checked_add(&h) {
                                Some(sum) => match sum.checked_half() {
                                    Some(v) => Ok(v),
                                    None => Err(LayoutError::Overflow),
                                },
                                None => Err(LayoutError::Overflow),
                            }
                        },
                    }
                },
            }
        } else {
            match axis {
                Axis::X => self.get_scale(t, Dir::Horizontal, fuel),
                Axis::Y => self.get_scale(t, Dir::Vertical, fuel),
                _ => {
                    let sx = match self.get_scale(t, Dir::Horizontal, fuel) {
                        Ok(sx) => sx,
                        Err(er) => {
                            return Err(er);
                        },
                    };
                    let ghost s1 = *self;
                    let sy = match self.get_scale(t, Dir::Vertical, fuel) {
                        Ok(sy) => sy,
                        Err(er) => {
                            proof {
                                lemma_evolves_trans(s0, s1, *self);
                            }
                            return Err(er);
                        },
                    };
                    proof {
                        lemma_evolves_trans(s0, s1, *self);
                        assert(elem_evolves(s1.elements@[t as int], self.elements@[t as int]));
                        assert(size_slot(self.elements@[t as int], Dir::Horizontal) == size_slot(
                            s1.elements@[t as int],
                            Dir::Horizontal,
                        ));
                        assert(scale_val(self.elements@[t as int], Dir::Horizontal) == scale_val(
                            s1.elements@[t as int],
                            Dir::Horizontal,
                        ));
                    }
                    match axis {
                        Axis::Min => Ok(sx.min(&sy)),
                        Axis::Max => Ok(sx.max(&sy)),
                        _ => {
                            match sx.checked_add(&sy) {
                                Some(sum) => match sum.checked_half() {
                                    Some(v) => Ok(v),
                                    None => Err(LayoutError::Overflow),
                                },
                                None => Err(LayoutError::Overflow),
                            }
                        },
                    }
                },
            }
        }
    }

    /// Returns the memoised size along `dir`, or resolves it; observing
    /// an evaluation already in progress is a cycle.
    fn get_size(&mut self, e: ElementId, dir: Dir, fuel: u64) -> (r: Result<Rational, LayoutError>)
        requires
            e < old(self).elements@.len(),
        ensures
            evolves(*old(self), *final(self)),
            r matches Ok(v) ==> size_slot(final(self).elements@[e as int], dir)
                == ConstraintState::Calculated(v),
            size_slot(old(self).elements@[e as int], dir) matches ConstraintState::Calculated(v0)
                ==> r == Ok::<Rational, LayoutError>(v0) && *final(self) == *old(self),
            size_slot(old(self).elements@[e as int], dir) is Calculating ==> r == Err::<
                Rational,
                LayoutError,
            >(LayoutError::Recursive(e)) && *final(self) == *old(self),
            (size_slot(old(self).elements@[e as int], dir) is Unknown && fuel >= 1 && old(
                self,
            ).elements@[e as int].constraints.parent is None && !(last_slot(
                old(self).elements@[e as int],
                dir,
            ) matches ConstraintState::Calculated(lw) && lw@.n != 0)) ==> (r matches Ok(v) && v@
                == frac_int(1)),
            ({
                let el = old(self).elements@[e as int];
                &&& size_slot(el, dir) is Unknown
                &&& fuel >= 1
                &&& el.constraints.parent is Some
                &&& size_rule_of(el, dir).relative is None
                &&& !(last_slot(el, dir) matches ConstraintState::Calculated(lw) && lw@.n != 0)
            }) ==> (r matches Ok(v) && v@ == size_rule_of(old(self).elements@[e as int], dir).value@),
            ({
                let el = old(self).elements@[e as int];
                &&& size_slot(el, dir) is Unknown
                &&& fuel >= 1
                &&& el.constraints.parent is Some
                &&& size_rule_of(el, dir).relative matches Some((axis, rr))
                &&& norm_ref(el.constraints.parent->0, el.parent.0, rr) == ElementRef::This
                &&& axis != (if dir == Dir::Horizontal {
                    Axis::Y
                } else {
                    Axis::X
                })
            }) ==> final(self).warnings@ == old(self).warnings@.push(e) && ((r matches Ok(v) && v@
                == frac_int(1)) || r == Err::<Rational, LayoutError>(LayoutError::Overflow)),
            ({
                let el = old(self).elements@[e as int];
                let rule = size_rule_of(el, dir);
                &&& size_slot(el, dir) is Unknown
                &&& fuel >= 1
                &&& el.constraints.parent is Some
                &&& rule.relative matches Some((axis, rr))
                &&& norm_ref(el.constraints.parent->0, el.parent.0, rr) == ElementRef::Screen
            }) ==> ((r matches Ok(v) && v@ == ({
                let el = old(self).elements@[e as int];
                let rule = size_rule_of(el, dir);
                let axis = rel_axis(rule.relative);
                if rule.percent {
                    frac_mul(rule.value@, screen_dim(old(self).screen, axis))
                } else {
                    frac_mul(rule.value@, screen_scale(old(self).screen, axis))
                }
            })) || r == Err::<Rational, LayoutError>(LayoutError::Overflow)),
            (size_slot(old(self).elements@[e as int], dir) is Unknown && fuel >= 1 && size_ready(
                *old(self),
                e as int,
                dir,
            )) ==> (r matches Ok(v) && v@ == size_ready_val(*old(self), e as int, dir)),
        decreases fuel, 0int,
    {
        proof {
            lemma_evolves_refl(*self);
        }
        match self.read_size_slot(e, dir) {
            ConstraintState::Calculated(v) => Ok(v),
            ConstraintState::Calculating => Err(LayoutError::Recursive(e)),
            ConstraintState::Unknown => {
                if fuel == 0 {
                    Err(LayoutError::Recursive(e))
                } else {
                    self.calculate_size(e, dir, fuel - 1)
                }
            },
        }
    }

    /// Returns the cumulative scale along `dir`, resolving the size
    /// first since the scale is derived from it.
    fn get_scale(&mut self, e: ElementId, dir: Dir, fuel: u64) -> (r: Result<Rational, LayoutError>)
        requires
            e < old(self).elements@.len(),
        ensures
            evolves(*old(self), *final(self)),
            r matches Ok(v) ==> size_slot(final(self).elements@[e as int], dir) is Calculated && v
                == scale_val(final(self).elements@[e as int], dir),
            size_slot(old(self).elements@[e as int], dir) is Calculated ==> *final(self) == *old(
                self,
            ) && r == Ok::<Rational, LayoutError>(scale_val(old(self).elements@[e as int], dir)),
            size_slot(old(self).elements@[e as int], dir) is Calculating ==> r == Err::<
                Rational,
                LayoutError,
            >(LayoutError::Recursive(e)) && *final(self) == *old(self),
            (size_slot(old(self).elements@[e as int], dir) is Unknown && fuel >= 1 && size_ready(
                *old(self),
                e as int,
                dir,
            )) ==> (r matches Ok(v) && v@ == scale_after(
                old(self).elements@[e as int],
                dir,
                size_ready_val(*old(self), e as int, dir),
            )),
        decreases fuel, 0int,
    {
        proof {
            lemma_evolves_refl(*self);
        }
        match self.read_size_slot(e, dir) {
            ConstraintState::Calculated(_) => Ok(self.read_scale(e, dir)),
            ConstraintState::Calculating => Err(LayoutError::Recursive(e)),
            ConstraintState::Unknown => {
                if fuel == 0 {
                    Err(LayoutError::Recursive(e))
                } else {
                    match self.calculate_size(e, dir, fuel - 1) {
                        Ok(_) => Ok(self.read_scale(e, dir)),
                        Err(er) => Err(er),
                    }
                }
            },
        }
    }
}

} // verus!

verus! {

impl UISystem {
    /// Resolves the size of element `e` along `dir` from its
    /// declarative rule, then folds the growth ratio into the
    /// cumulative scale factor.
    #[verifier::rlimit(60)]
    fn calculate_size(&mut self, e: ElementId, dir: Dir, fuel: u64) -> (r: Result<
        Rational,
        LayoutError,
    >)
        requires
            e < old(self).elements@.len(),
            size_slot(old(self).elements@[e as int], dir) is Unknown,
        ensures
            evolves(*old(self), *final(self)),
            r matches Ok(v) ==> size_slot(final(self).elements@[e as int], dir)
                == ConstraintState::Calculated(v),
            old(self).elements@[e as int].constraints.parent is None ==> ((r matches Ok(v) && v@
                == frac_int(1)) || r == Err::<Rational, LayoutError>(LayoutError::Overflow)),
            (old(self).elements@[e as int].constraints.parent is None && !(last_slot(
                old(self).elements@[e as int],
                dir,
            ) matches ConstraintState::Calculated(lw) && lw@.n != 0)) ==> (r matches Ok(v) && v@
                == frac_int(1)),
            ({
                let el = old(self).elements@[e as int];
                el.constraints.parent is Some && size_rule_of(el, dir).relative is None
            }) ==> ((r matches Ok(v) && v@ == size_rule_of(old(self).elements@[e as int], dir).value@)
                || r == Err::<Rational, LayoutError>(LayoutError::Overflow)),
            ({
                let el = old(self).elements@[e as int];
                el.constraints.parent is Some && size_rule_of(el, dir).relative is None && !(
                last_slot(el, dir) matches ConstraintState::Calculated(lw) && lw@.n != 0)
            }) ==> (r matches Ok(v) && v@ == size_rule_of(old(self).elements@[e as int], dir).value@),
            ({
                let el = old(self).elements@[e as int];
                &&& el.constraints.parent is Some
                &&& size_rule_of(el, dir).relative matches Some((axis, rr))
                &&& norm_ref(el.constraints.parent->0, el.parent.0, rr) == ElementRef::This
                &&& axis != (if dir == Dir::Horizontal {
                    Axis::Y
                } else {
                    Axis::X
                })
            }) ==> final(self).warnings@ == old(self).warnings@.push(e) && ((r matches Ok(v) && v@
                == frac_int(1)) || r == Err::<Rational, LayoutError>(LayoutError::Overflow)),
            ({
                let el = old(self).elements@[e as int];
                let rule = size_rule_of(el, dir);
                &&& el.constraints.parent is Some
                &&& rule.relative matches Some((axis, rr))
                &&& norm_ref(el.constraints.parent->0, el.parent.0, rr) == ElementRef::Screen
            }) ==> ((r matches Ok(v) && v@ == ({
                let el = old(self).elements@[e as int];
                let rule = size_rule_of(el, dir);
                let axis = rel_axis(rule.relative);
                if rule.percent {
                    frac_mul(rule.value@, screen_dim(old(self).screen, axis))
                } else {
                    frac_mul(rule.value@, screen_scale(old(self).screen, axis))
                }
            })) || r == Err::<Rational, LayoutError>(LayoutError::Overflow)),
            size_ready(*old(self), e as int, dir) ==> (r matches Ok(v) && v@ == size_ready_val(
                *old(self),
                e as int,
                dir,
            )),
        decreases fuel, 3int,
    {
        let ghost s0 = *self;
        let own_opt = self.elements[e].constraints.parent;
        let par = self.elements[e].parent.0;
        let rule = self.size_rule_exec(e, dir);
        self.mark_size_calculating(e, dir);
        proof {
            lemma_size_ready_after_mark(s0, *self, e as int, dir);
        }
        match own_opt {
            None => {
                let v = Rational::one();
                match self.updated_scale(e, dir, v) {
                    None => Err(LayoutError::Overflow),
                    Some(sc) => {
                        let ghost spre = *self;
                        self.store_size(e, dir, v, sc);
                        proof {
                            reveal(size_value_ok);
                            assert(size_value_ok(*self, e as int, dir, v@));
                            lemma_step_store_size(s0, spre, *self, e as int, dir, v, sc);
                        }
                        Ok(v)
                    },
                }
            },
            Some(own) => {
                match rule.relative {
                    None => {
                        let v = rule.value;
                        match self.updated_scale(e, dir, v) {
                            None => Err(LayoutError::Overflow),
                            Some(sc) => {
                                let ghost spre = *self;
                                self.store_size(e, dir, v, sc);
                                proof {
                                    reveal(size_value_ok);
                                    assert(size_rule_of(self.elements@[e as int], dir) == rule);
                                    assert(size_value_ok(*self, e as int, dir, v@));
                                    lemma_step_store_size(s0, spre, *self, e as int, dir, v, sc);
                                }
                                Ok(v)
                            },
                        }
                    },
                    Some((axis, rr)) => {
                        let mut nr = rr;
                        check_relative(own, par, &mut nr);
                        if nr == ElementRef::This {
                            let safe = if dir == Dir::Horizontal {
                                Axis::Y
                            } else {
                                Axis::X
                            };
                            if axis == safe {
                                let ghost s1 = *self;
                                let other = flip_dir(dir);
                                let src = if rule.percent {
                                    match self.get_size(e, other, fuel) {
                                        Ok(src) => src,
                                        Err(er) => {
                                            proof {
                                                lemma_evolves_trans(s0, s1, *self);
                                            }
                                            return Err(er);
                                        },
                                    }
                                } else {
                                    match self.get_scale(e, other, fuel) {
                                        Ok(src) => src,
                                        Err(er) => {
                                            proof {
                                                lemma_evolves_trans(s0, s1, *self);
                                            }
                                            return Err(er);
                                        },
                                    }
                                };
                                proof {
                                    lemma_evolves_trans(s0, s1, *self);
                                }
                                let v = match rule.value.checked_mul(&src) {
                                    Some(v) => v,
                                    None => {
                                        return Err(LayoutError::Overflow);
                                    },
                                };
                                match self.updated_scale(e, dir, v) {
                                    None => Err(LayoutError::Overflow),
                                    Some(sc) => {
                                        let ghost spre = *self;
                                        self.store_size(e, dir, v, sc);
                                        proof {
                                            reveal(size_value_ok);
                                            assert(size_rule_of(self.elements@[e as int], dir)
                                                == rule);
                                            assert(size_slot(self.elements@[e as int], flip(dir))
                                                == size_slot(spre.elements@[e as int], flip(dir)));
                                            assert(scale_val(self.elements@[e as int], flip(dir))
                                                == scale_val(spre.elements@[e as int], flip(dir)));
                                            assert(size_value_ok(*self, e as int, dir, v@));
                                            lemma_step_store_size(
                                                s0,
                                                spre,
                                                *self,
                                                e as int,
                                                dir,
                                                v,
                                                sc,
                                            );
                                        }
                                        Ok(v)
                                    },
                                }
                            } else {
                                self.push_warning(e);
                                let ghost s1 = *self;
                                proof {
                                    lemma_evolves_trans(s0, s1, *self);
                                }
                                let v = Rational::one();
                                match self.updated_scale(e, dir, v) {
                                    None => Err(LayoutError::Overflow),
                                    Some(sc) => {
                                        let ghost spre = *self;
                                        self.store_size(e, dir, v, sc);
                                        proof {
                                            reveal(size_value_ok);
                                            assert(size_rule_of(self.elements@[e as int], dir)
                                                == rule);
                                            assert(size_value_ok(*self, e as int, dir, v@));
                                            lemma_step_store_size(
                                                s0,
                                                spre,
                                                *self,
                                                e as int,
                                                dir,
                                                v,
                                                sc,
                                            );
                                        }
                                        Ok(v)
                                    },
                                }
                            }
                        } else if nr == ElementRef::Screen {
                            let src = if rule.percent {
                                self.screen_dim_axis(axis)
                            } else {
                                match self.screen_scale_axis(axis) {
                                    Ok(src) => src,
                                    Err(er) => {
                                        return Err(er);
                                    },
                                }
                            };
                            let v = match rule.value.checked_mul(&src) {
                                Some(v) => v,
                                None => {
                                    return Err(LayoutError::Overflow);
                                },
                            };
                            match self.updated_scale(e, dir, v) {
                                None => Err(LayoutError::Overflow),
                                Some(sc) => {
                                    let ghost spre = *self;
                                    self.store_size(e, dir, v, sc);
                                    proof {
                                        reveal(size_value_ok);
                                        assert(size_rule_of(self.elements@[e as int], dir) == rule);
                                        assert(size_value_ok(*self, e as int, dir, v@));
                                        lemma_step_store_size(s0, spre, *self, e as int, dir, v, sc);
                                    }
                                    Ok(v)
                                },
                            }
                        } else {
                            let t: ElementId = match nr {
                                ElementRef::Parent => {
                                    match par {
                                        Some(p) => p,
                                        None => {
                                            proof {
                                                assert(false);
                                            }
                                            unreached()
                                        },
                                    }
                                },
                                ElementRef::Other(id) => id,
                                _ => unreached(),
                            };
                            if t >= self.elements.len() {
                                return Err(LayoutError::MissingElement(t));
                            }
                            let ghost s1 = *self;
                            let src = match self.elem_source(t, axis, rule.percent, fuel) {
                                Ok(src) => src,
                                Err(er) => {
                                    proof {
                                        lemma_evolves_trans(s0, s1, *self);
                                    }
                                    return Err(er);
                                },
                            };
                            proof {
                                lemma_evolves_trans(s0, s1, *self);
                            }
                            let v = match rule.value.checked_mul(&src) {
                                Some(v) => v,
                                None => {
                                    return Err(LayoutError::Overflow);
                                },
                            };
                            match self.updated_scale(e, dir, v) {
                                None => Err(LayoutError::Overflow),
                                Some(sc) => {
                                    let ghost spre = *self;
                                    self.store_size(e, dir, v, sc);
                                    proof {
                                        reveal(size_value_ok);
                                        assert(size_rule_of(self.elements@[e as int], dir) == rule);
                                        lemma_store_reads_stable_size(
                                            spre,
                                            *self,
                                            e as int,
                                            dir,
                                            v,
                                            sc,
                                        );
                                        lemma_dim_scale_stable(spre, *self, t as int, axis);
                                        assert(size_value_ok(*self, e as int, dir, v@));
                                        lemma_step_store_size(s0, spre, *self, e as int, dir, v, sc);
                                    }
                                    Ok(v)
                                },
                            }
                        }
                    },
                }
            },
        }
    }
}

} // verus!

verus! {

impl UISystem {
    /// Computes a position rule's raw offset: the literal value, or the
    /// value adjusted by the relative target's scale (pixel rules) or
    /// dimension (percent rules).
    fn resolve_offset(
        &mut self,
        j: ElementId,
        own: ElementId,
        par: Option<ElementId>,
        relative: Option<(Axis, ElementRef)>,
        value: Rational,
        percent: bool,
        fuel: u64,
    ) -> (r: Result<Rational, LayoutError>)
        requires
            j < old(self).elements@.len(),
        ensures
            evolves(*old(self), *final(self)),
            r matches Ok(o) ==> offset_defined(*final(self), j as int, own, par, relative) && o@
                == offset_val(*final(self), j as int, own, par, relative, value, percent),
            relative is None ==> r == Ok::<Rational, LayoutError>(value) && *final(self) == *old(
                self,
            ),
            offset_ready(*old(self), j as int, own, par, relative, value, percent) ==> *final(self)
                == *old(self) && (r matches Ok(o) && o@ == offset_val(
                *old(self),
                j as int,
                own,
                par,
                relative,
                value,
                percent,
            )),
        decreases fuel, 2int,
    {
        proof {
            lemma_evolves_refl(*self);
        }
        match relative {
            None => Ok(value),
            Some((axis, rr)) => {
                let mut nr = rr;
                check_relative(own, par, &mut nr);
                let src = match nr {
                    ElementRef::Screen => {
                        if percent {
                            self.screen_dim_axis(axis)
                        } else {
                            match self.screen_scale_axis(axis) {
                                Ok(src) => src,
                                Err(er) => {
                                    return Err(er);
                                },
                            }
                        }
                    },
                    ElementRef::This => {
                        match self.elem_source(j, axis, percent, fuel) {
                            Ok(src) => src,
                            Err(er) => {
                                return Err(er);
                            },
                        }
                    },
                    ElementRef::Parent => {
                        let p = match par {
                            Some(p) => p,
                            None => {
                                proof {
                                    assert(false);
                                }
                                unreached()
                            },
                        };
                        if p >= self.elements.len() {
                            return Err(LayoutError::MissingElement(p));
                        }
                        match self.elem_source(p, axis, percent, fuel) {
                            Ok(src) => src,
                            Err(er) => {
                                return Err(er);
                            },
                        }
                    },
                    ElementRef::Other(id) => {
                        if id >= self.elements.len() {
                            return Err(LayoutError::MissingElement(id));
                        }
                        match self.elem_source(id, axis, percent, fuel) {
                            Ok(src) => src,
                            Err(er) => {
                                return Err(er);
                            },
                        }
                    },
                };
                match value.checked_mul(&src) {
                    Some(o) => Ok(o),
                    None => Err(LayoutError::Overflow),
                }
            },
        }
    }

    /// Resolves the anchor target's position along `dir`; the screen
    /// anchors at zero.
    fn anchor_fetch_pos(&mut self, nf: ElementRef, par: Option<ElementId>, dir: Dir, fuel: u64) -> (r:
        Result<Rational, LayoutError>)
        requires
            !(nf is This),
            nf is Parent ==> par is Some,
        ensures
            evolves(*old(self), *final(self)),
            r matches Ok(v) ==> anchor_pos_defined(*final(self), nf, par, dir) && v@ == anchor_pos(
                *final(self),
                nf,
                par,
                dir,
            ),
            nf is Screen ==> r is Ok && *final(self) == *old(self),
            anchor_pos_defined(*old(self), nf, par, dir) ==> *final(self) == *old(self) && (
            r matches Ok(v) && v@ == anchor_pos(*old(self), nf, par, dir)),
        decreases fuel, 2int,
    {
        proof {
            lemma_evolves_refl(*self);
        }
        match nf {
            ElementRef::Screen => Ok(Rational::zero()),
            ElementRef::Parent => {
                let p = match par {
                    Some(p) => p,
                    None => unreached(),
                };
                if p >= self.elements.len() {
                    return Err(LayoutError::MissingElement(p));
                }
                self.get_pos(p, dir, fuel)
            },
            ElementRef::Other(id) => {
                if id >= self.elements.len() {
                    return Err(LayoutError::MissingElement(id));
                }
                self.get_pos(id, dir, fuel)
            },
            ElementRef::This => unreached(),
        }
    }

    /// Resolves the anchor target's size along `dir`; for the screen it
    /// is the screen's own dimension.
    fn anchor_fetch_size(&mut self, nf: ElementRef, par: Option<ElementId>, dir: Dir, fuel: u64) -> (r:
        Result<Rational, LayoutError>)
        requires
            !(nf is This),
            nf is Parent ==> par is Some,
        ensures
            evolves(*old(self), *final(self)),
            r matches Ok(v) ==> anchor_size_defined(*final(self), nf, par, dir) && v@
                == anchor_size(*final(self), nf, par, dir),
            nf is Screen ==> r is Ok && *final(self) == *old(self),
            anchor_size_defined(*old(self), nf, par, dir) ==> *final(self) == *old(self) && (
            r matches Ok(v) && v@ == anchor_size(*old(self), nf, par, dir)),
        decreases fuel, 2int,
    {
        proof {
            lemma_evolves_refl(*self);
        }
        match nf {
            ElementRef::Screen => {
                match dir {
                    Dir::Horizontal => Ok(Rational::from_int(self.screen.width as i64)),
                    Dir::Vertical => Ok(Rational::from_int(self.screen.height as i64)),
                }
            },
            ElementRef::Parent => {
                let p = match par {
                    Some(p) => p,
                    None => unreached(),
                };
                if p >= self.elements.len() {
                    return Err(LayoutError::MissingElement(p));
                }
                self.get_size(p, dir, fuel)
            },
            ElementRef::Other(id) => {
                if id >= self.elements.len() {
                    return Err(LayoutError::MissingElement(id));
                }
                self.get_size(id, dir, fuel)
            },
            ElementRef::This => unreached(),
        }
    }

    /// Returns the memoised position along `dir`, or resolves it;
    /// observing an evaluation already in progress is a cycle.
    fn get_pos(&mut self, e: ElementId, dir: Dir, fuel: u64) -> (r: Result<Rational, LayoutError>)
        requires
            e < old(self).elements@.len(),
        ensures
            evolves(*old(self), *final(self)),
            r matches Ok(v) ==> pos_slot(final(self).elements@[e as int], dir)
                == ConstraintState::Calculated(v),
            pos_slot(old(self).elements@[e as int], dir) matches ConstraintState::Calculated(v0)
                ==> r == Ok::<Rational, LayoutError>(v0) && *final(self) == *old(self),
            pos_slot(old(self).elements@[e as int], dir) is Calculating ==> r == Err::<
                Rational,
                LayoutError,
            >(LayoutError::Recursive(e)) && *final(self) == *old(self),
            (pos_slot(old(self).elements@[e as int], dir) is Unknown && fuel >= 1 && old(
                self,
            ).elements@[e as int].constraints.parent is None) ==> (r matches Ok(v) && v@
                == frac_int(0)),
            ({
                let el = old(self).elements@[e as int];
                &&& pos_slot(el, dir) is Unknown
                &&& fuel >= 1
                &&& el.constraints.parent is Some
                &&& norm_ref(el.constraints.parent->0, el.parent.0, pos_rule_of(el, dir).from_ref)
                    == ElementRef::This
            }) ==> (r matches Ok(v) && v@ == frac_int(0) && final(self).warnings@ == old(
                self,
            ).warnings@.push(e)),
            ({
                let el = old(self).elements@[e as int];
                let rule = pos_rule_of(el, dir);
                &&& pos_slot(el, dir) is Unknown
                &&& fuel >= 1
                &&& el.constraints.parent is Some
                &&& rule.side == Anchor::InLow
                &&& norm_ref(el.constraints.parent->0, el.parent.0, rule.from_ref)
                    == ElementRef::Screen
                &&& rule.relative is None
            }) ==> (r matches Ok(v) && v@ == pos_rule_of(old(self).elements@[e as int], dir).value@),
            (pos_slot(old(self).elements@[e as int], dir) is Unknown && fuel >= 1 && pos_ready(
                *old(self),
                e as int,
                dir,
            )) ==> (r matches Ok(v) && v@ == pos_ready_val(*old(self), e as int, dir)),
        decreases fuel, 0int,
    {
        proof {
            lemma_evolves_refl(*self);
        }
        match self.read_pos_slot(e, dir) {
            ConstraintState::Calculated(v) => Ok(v),
            ConstraintState::Calculating => Err(LayoutError::Recursive(e)),
            ConstraintState::Unknown => {
                if fuel == 0 {
                    Err(LayoutError::Recursive(e))
                } else {
                    self.calculate_pos(e, dir, fuel - 1)
                }
            },
        }
    }
}

} // verus!

verus! {

impl UISystem {
    /// Resolves the position of element `e` along `dir`. The root
    /// default and the self-anchor warning are handled here; anchored
    /// rules are evaluated by [`UISystem::calculate_pos_anchored`].
    fn calculate_pos(&mut self, e: ElementId, dir: Dir, fuel: u64) -> (r: Result<
        Rational,
        LayoutError,
    >)
        requires
            e < old(self).elements@.len(),
            pos_slot(old(self).elements@[e as int], dir) is Unknown,
        ensures
            evolves(*old(self), *final(self)),
            r matches Ok(v) ==> pos_slot(final(self).elements@[e as int], dir)
                == ConstraintState::Calculated(v),
            old(self).elements@[e as int].constraints.parent is None ==> (r matches Ok(v) && v@
                == frac_int(0)),
            ({
                let el = old(self).elements@[e as int];
                &&& el.constraints.parent is Some
                &&& norm_ref(el.constraints.parent->0, el.parent.0, pos_rule_of(el, dir).from_ref)
                    == ElementRef::This
            }) ==> (r matches Ok(v) && v@ == frac_int(0) && final(self).warnings@ == old(
                self,
            ).warnings@.push(e)),
            ({
                let el = old(self).elements@[e as int];
                let rule = pos_rule_of(el, dir);
                &&& el.constraints.parent is Some
                &&& rule.side == Anchor::InLow
                &&& norm_ref(el.constraints.parent->0, el.parent.0, rule.from_ref)
                    == ElementRef::Screen
                &&& rule.relative is None
            }) ==> (r matches Ok(v) && v@ == pos_rule_of(old(self).elements@[e as int], dir).value@),
            pos_ready(*old(self), e as int, dir) ==> (r matches Ok(v) && v@ == pos_ready_val(
                *old(self),
                e as int,
                dir,
            )),
        decreases fuel, 4int,
    {
        let ghost s0 = *self;
        let own_opt = self.elements[e].constraints.parent;
        let par = self.elements[e].parent.0;
        let rule = self.pos_rule_exec(e, dir);
        self.mark_pos_calculating(e, dir);
        proof {
            lemma_pos_ready_after_mark(s0, *self, e as int, dir);
        }
        match own_opt {
            None => {
                let v = Rational::zero();
                let ghost spre = *self;
                self.store_pos(e, dir, v);
                proof {
                    reveal(pos_value_ok);
                    assert(pos_value_ok(*self, e as int, dir, v@));
                    lemma_step_store_pos(s0, spre, *self, e as int, dir, v);
                }
                Ok(v)
            },
            Some(own) => {
                let mut nf = rule.from_ref;
                check_relative(own, par, &mut nf);
                if nf == ElementRef::This {
                    self.push_warning(e);
                    let ghost s1 = *self;
                    proof {
                        lemma_evolves_trans(s0, s1, *self);
                    }
                    let v = Rational::zero();
                    let ghost spre = *self;
                    self.store_pos(e, dir, v);
                    proof {
                        reveal(pos_value_ok);
                        assert(pos_rule_of(self.elements@[e as int], dir) == rule);
                        assert(pos_value_ok(*self, e as int, dir, v@));
                        lemma_step_store_pos(s0, spre, *self, e as int, dir, v);
                    }
                    Ok(v)
                } else {
                    self.calculate_pos_anchored(e, dir, own, par, rule, nf, fuel, Ghost(s0))
                }
            },
        }
    }

    /// Evaluates an anchored position rule: offset, anchor geometry,
    /// own size where the side reads it, then the anchor formula.
    #[verifier::rlimit(100)]
    fn calculate_pos_anchored(
        &mut self,
        e: ElementId,
        dir: Dir,
        own: ElementId,
        par: Option<ElementId>,
        rule: PosRule,
        nf: ElementRef,
        fuel: u64,
        Ghost(s0): Ghost<UISystem>,
    ) -> (r: Result<Rational, LayoutError>)
        requires
            e < old(self).elements@.len(),
            evolves(s0, *old(self)),
            s0.elements@.len() == old(self).elements@.len(),
            pos_slot(s0.elements@[e as int], dir) is Unknown,
            pos_slot(old(self).elements@[e as int], dir) is Calculating,
            s0.elements@[e as int].constraints.parent == Some(own),
            s0.elements@[e as int].parent.0 == par,
            rule == pos_rule_of(s0.elements@[e as int], dir),
            nf == norm_ref(own, par, rule.from_ref),
            !(nf is This),
        ensures
            evolves(s0, *final(self)),
            r matches Ok(v) ==> pos_slot(final(self).elements@[e as int], dir)
                == ConstraintState::Calculated(v),
            (rule.side == Anchor::InLow && nf == ElementRef::Screen && rule.relative is None) ==> (
            r matches Ok(v) && v@ == rule.value@),
            pos_ready(*old(self), e as int, dir) ==> (r matches Ok(v) && v@ == pos_ready_val(
                *old(self),
                e as int,
                dir,
            )),
        decreases fuel, 3int,
    {
        proof {
            if nf is Parent {
                assert(par is Some);
            }
        }
        // The rule's offset
        let ghost sa = *self;
        let off = match self.resolve_offset(
            e,
            own,
            par,
            rule.relative,
            rule.value,
            rule.percent,
            fuel,
        ) {
            Ok(o) => o,
            Err(er) => {
                proof {
                    lemma_evolves_trans(s0, sa, *self);
                    assert(!(rule.relative is None));
                }
                return Err(er);
            },
        };
        proof {
            lemma_evolves_trans(s0, sa, *self);
        }
        let ghost s_off = *self;
        // The anchor target's position
        let ap = match self.anchor_fetch_pos(nf, par, dir, fuel) {
            Ok(v) => v,
            Err(er) => {
                proof {
                    lemma_evolves_trans(s0, s_off, *self);
                }
                return Err(er);
            },
        };
        proof {
            lemma_evolves_trans(s0, s_off, *self);
        }
        let ghost s_ap = *self;
        // The anchor target's size, where the side reads it
        let needs_asz = match rule.side {
            Anchor::FromHigh | Anchor::InHigh | Anchor::Centered => true,
            _ => false,
        };
        let asz = if needs_asz {
            let asz = match self.anchor_fetch_size(nf, par, dir, fuel) {
                Ok(v) => v,
                Err(er) => {
                    proof {
                        lemma_evolves_trans(s0, s_ap, *self);
                    }
                    return Err(er);
                },
            };
            proof {
                lemma_evolves_trans(s0, s_ap, *self);
            }
            asz
        } else {
            proof {
                lemma_evolves_refl(*self);
            }
            Rational::zero()
        };
        let ghost s_asz = *self;
        // This element's own size, where the side reads it
        let needs_ssz = match rule.side {
            Anchor::FromLow | Anchor::InHigh | Anchor::Centered => true,
            _ => false,
        };
        let ssz = if needs_ssz {
            let ssz = match self.get_size(e, dir, fuel) {
                Ok(v) => v,
                Err(er) => {
                    proof {
                        lemma_evolves_trans(s0, s_asz, *self);
                    }
                    return Err(er);
                },
            };
            proof {
                lemma_evolves_trans(s0, s_asz, *self);
            }
            ssz
        } else {
            proof {
                lemma_evolves_refl(*self);
            }
            Rational::zero()
        };
        let ghost spre = *self;
        // The anchor geometry function
        let computed: Option<Rational> = match rule.side {
            Anchor::FromLow => match ap.checked_sub(&ssz) {
                Some(t) => t.checked_sub(&off),
                None => None,
            },
            Anchor::FromHigh => match ap.checked_add(&asz) {
                Some(t) => t.checked_add(&off),
                None => None,
            },
            Anchor::InLow => ap.checked_add(&off),
            Anchor::InHigh => match ap.checked_add(&asz) {
                Some(t) => match t.checked_sub(&ssz) {
                    Some(t2) => t2.checked_sub(&off),
                    None => None,
                },
                None => None,
            },
            Anchor::Centered => match asz.checked_sub(&ssz) {
                Some(t) => match t.checked_half() {
                    Some(t2) => match ap.checked_add(&t2) {
                        Some(t3) => t3.checked_add(&off),
                        None => None,
                    },
                    None => None,
                },
                None => None,
            },
        };
        let v = match computed {
            Some(v) => v,
            None => {
                proof {
                    if rule.side == Anchor::InLow && nf == ElementRef::Screen && rule.relative
                        is None {
                        lemma_frac_add_zero(rule.value@);
                        assert(false);
                    }
                }
                return Err(LayoutError::Overflow);
            },
        };
        self.store_pos(e, dir, v);
        proof {
            let post = *self;
            let ei = e as int;
            // stability of everything the rule read, up to the final
            // cache write
            lemma_store_reads_stable_pos(spre, post, ei, dir, v);
            lemma_evolves_trans(s_off, s_ap, s_asz);
            lemma_evolves_trans(s_off, s_asz, spre);
            lemma_evolves_trans(s_ap, s_asz, spre);
            lemma_evolves_implies_reads_stable(s_off, spre);
            lemma_reads_stable_trans(s_off, spre, post);
            lemma_evolves_implies_reads_stable(s_ap, spre);
            lemma_reads_stable_trans(s_ap, spre, post);
            lemma_evolves_implies_reads_stable(s_asz, spre);
            lemma_reads_stable_trans(s_asz, spre, post);
            lemma_offset_stable(s_off, post, ei, own, par, rule.relative, rule.value, rule.percent);
            lemma_anchor_stable(s_ap, post, nf, par, dir);
            if needs_asz {
                lemma_anchor_stable(s_asz, post, nf, par, dir);
            }
            if needs_ssz {
                assert(elem_reads_stable(s_asz.elements@[ei], post.elements@[ei]));
                assert(size_slot(post.elements@[ei], dir) == ConstraintState::Calculated(ssz));
            }
            assert(pos_rule_of(post.elements@[ei], dir) == rule);
            if rule.side == Anchor::InLow && nf == ElementRef::Screen && rule.relative is None {
                lemma_frac_add_zero(rule.value@);
            }
            reveal(pos_value_ok);
            assert(pos_value_ok(post, ei, dir, v@));
            lemma_step_store_pos(s0, spre, post, ei, dir, v);
        }
        Ok(v)
    }

    /// The recursion budget: generous enough that it can only run out
    /// if the constraint graph revisits an element.
    fn fuel_budget(&self) -> (r: u64)
        ensures
            r >= 16,
    {
        let n = self.elements.len();
        if n < 0x1000_0000 {
            (8 * (n as u64)) + 16
        } else {
            u64::MAX
        }
    }
}

} // verus!

verus! {

/// Adding a zero anchor position leaves the offset unchanged.
pub proof fn lemma_frac_add_zero(b: Frac)
    ensures
        frac_add(frac_int(0), b) == b,
{
    assert(0 * b.d + b.n * 1 == b.n) by (nonlinear_arith);
    assert(1 * b.d == b.d) by (nonlinear_arith);
}

} // verus!

verus! {

/// Everything a position query promises: the returned value is the
/// resolved slot; a memoised value is returned unchanged (idempotence);
/// observing an evaluation in progress reports the cycle; a root
/// element defaults to zero; a self-referential anchor warns and
/// defaults to zero; a plain in-edge screen offset is returned exactly.
pub open spec fn pos_query_ok(
    pre: UISystem,
    post: UISystem,
    e: ElementId,
    dir: Dir,
    r: Result<Rational, LayoutError>,
) -> bool {
    let el = pre.elements@[e as int];
    let rule = pos_rule_of(el, dir);
    &&& (r matches Ok(v) ==> pos_slot(post.elements@[e as int], dir) == ConstraintState::Calculated(
        v,
    ))
    &&& (pos_slot(el, dir) matches ConstraintState::Calculated(v0) ==> r == Ok::<
        Rational,
        LayoutError,
    >(v0) && post == pre)
    &&& (pos_slot(el, dir) is Calculating ==> r == Err::<Rational, LayoutError>(
        LayoutError::Recursive(e),
    ) && post == pre)
    &&& (pos_slot(el, dir) is Unknown && el.constraints.parent is None ==> (r matches Ok(v) && v@
        == frac_int(0)))
    &&& ((pos_slot(el, dir) is Unknown && el.constraints.parent is Some && norm_ref(
        el.constraints.parent->0,
        el.parent.0,
        rule.from_ref,
    ) == ElementRef::This) ==> (r matches Ok(v) && v@ == frac_int(0) && post.warnings@
        == pre.warnings@.push(e)))
    &&& ((pos_slot(el, dir) is Unknown && el.constraints.parent is Some && rule.side
        == Anchor::InLow && norm_ref(el.constraints.parent->0, el.parent.0, rule.from_ref)
        == ElementRef::Screen && rule.relative is None) ==> (r matches Ok(v) && v@ == rule.value@))
    &&& ((pos_slot(el, dir) is Unknown && pos_ready(pre, e as int, dir)) ==> (r matches Ok(v) && v@
        == pos_ready_val(pre, e as int, dir)))
}

/// Everything a size query promises, including the first-resolution
/// guarantees for the default, literal and self-referential rules.
pub open spec fn size_query_ok(
    pre: UISystem,
    post: UISystem,
    e: ElementId,
    dir: Dir,
    r: Result<Rational, LayoutError>,
) -> bool {
    let el = pre.elements@[e as int];
    let rule = size_rule_of(el, dir);
    let fresh = !(last_slot(el, dir) matches ConstraintState::Calculated(lw) && lw@.n != 0);
    &&& (r matches Ok(v) ==> size_slot(post.elements@[e as int], dir)
        == ConstraintState::Calculated(v))
    &&& (size_slot(el, dir) matches ConstraintState::Calculated(v0) ==> r == Ok::<
        Rational,
        LayoutError,
    >(v0) && post == pre)
    &&& (size_slot(el, dir) is Calculating ==> r == Err::<Rational, LayoutError>(
        LayoutError::Recursive(e),
    ) && post == pre)
    &&& ((size_slot(el, dir) is Unknown && el.constraints.parent is None && fresh) ==> (r matches Ok(
        v,
    ) && v@ == frac_int(1)))
    &&& ((size_slot(el, dir) is Unknown && el.constraints.parent is Some && rule.relative is None
        && fresh) ==> (r matches Ok(v) && v@ == rule.value@))
    &&& (({
        &&& size_slot(el, dir) is Unknown
        &&& el.constraints.parent is Some
        &&& rule.relative matches Some((axis, rr))
        &&& norm_ref(el.constraints.parent->0, el.parent.0, rr) == ElementRef::This
        &&& axis != (if dir == Dir::Horizontal {
            Axis::Y
        } else {
            Axis::X
        })
    }) ==> post.warnings@ == pre.warnings@.push(e) && ((r matches Ok(v) && v@ == frac_int(1)) || r
        == Err::<Rational, LayoutError>(LayoutError::Overflow)))
    &&& (({
        &&& size_slot(el, dir) is Unknown
        &&& el.constraints.parent is Some
        &&& rule.relative matches Some((axis, rr))
        &&& norm_ref(el.constraints.parent->0, el.parent.0, rr) == ElementRef::Screen
    }) ==> ((r matches Ok(v) && v@ == ({
        let axis = rel_axis(rule.relative);
        if rule.percent {
            frac_mul(rule.value@, screen_dim(pre.screen, axis))
        } else {
            frac_mul(rule.value@, screen_scale(pre.screen, axis))
        }
    })) || r == Err::<Rational, LayoutError>(LayoutError::Overflow)))
    &&& ((size_slot(el, dir) is Unknown && size_ready(pre, e as int, dir)) ==> (r matches Ok(v)
        && v@ == size_ready_val(pre, e as int, dir)))
}

impl UISystem {
    /// Lazily resolves and memoises the element's x position; fatal on
    /// a dependency cycle. A `This` anchor warns and yields zero.
    pub fn get_x(&mut self, e: ElementId) -> (r: Result<Rational, LayoutError>)
        ensures
            evolves(*old(self), *final(self)),
            e >= old(self).elements@.len() ==> r == Err::<Rational, LayoutError>(
                LayoutError::MissingElement(e),
            ) && *final(self) == *old(self),
            e < old(self).elements@.len() ==> pos_query_ok(
                *old(self),
                *final(self),
                e,
                Dir::Horizontal,
                r,
            ),
    {
        proof {
            lemma_evolves_refl(*self);
        }
        if e >= self.elements.len() {
            return Err(LayoutError::MissingElement(e));
        }
        let fuel = self.fuel_budget();
        self.get_pos(e, Dir::Horizontal, fuel)
    }

    /// Lazily resolves and memoises the element's y position; fatal on
    /// a dependency cycle. A `This` anchor warns and yields zero.
    pub fn get_y(&mut self, e: ElementId) -> (r: Result<Rational, LayoutError>)
        ensures
            evolves(*old(self), *final(self)),
            e >= old(self).elements@.len() ==> r == Err::<Rational, LayoutError>(
                LayoutError::MissingElement(e),
            ) && *final(self) == *old(self),
            e < old(self).elements@.len() ==> pos_query_ok(
                *old(self),
                *final(self),
                e,
                Dir::Vertical,
                r,
            ),
    {
        proof {
            lemma_evolves_refl(*self);
        }
        if e >= self.elements.len() {
            return Err(LayoutError::MissingElement(e));
        }
        let fuel = self.fuel_budget();
        self.get_pos(e, Dir::Vertical, fuel)
    }

    /// Lazily resolves and memoises the element's width, folding the
    /// growth ratio into the cumulative horizontal scale.
    pub fn get_width(&mut self, e: ElementId) -> (r: Result<Rational, LayoutError>)
        ensures
            evolves(*old(self), *final(self)),
            e >= old(self).elements@.len() ==> r == Err::<Rational, LayoutError>(
                LayoutError::MissingElement(e),
            ) && *final(self) == *old(self),
            e < old(self).elements@.len() ==> size_query_ok(
                *old(self),
                *final(self),
                e,
                Dir::Horizontal,
                r,
            ),
    {
        proof {
            lemma_evolves_refl(*self);
        }
        if e >= self.elements.len() {
            return Err(LayoutError::MissingElement(e));
        }
        let fuel = self.fuel_budget();
        self.get_size(e, Dir::Horizontal, fuel)
    }

    /// Lazily resolves and memoises the element's height, folding the
    /// growth ratio into the cumulative vertical scale.
    pub fn get_height(&mut self, e: ElementId) -> (r: Result<Rational, LayoutError>)
        ensures
            evolves(*old(self), *final(self)),
            e >= old(self).elements@.len() ==> r == Err::<Rational, LayoutError>(
                LayoutError::MissingElement(e),
            ) && *final(self) == *old(self),
            e < old(self).elements@.len() ==> size_query_ok(
                *old(self),
                *final(self),
                e,
                Dir::Vertical,
                r,
            ),
    {
        proof {
            lemma_evolves_refl(*self);
        }
        if e >= self.elements.len() {
            return Err(LayoutError::MissingElement(e));
        }
        let fuel = self.fuel_budget();
        self.get_size(e, Dir::Vertical, fuel)
    }

    /// The cumulative horizontal scale ratio, valid once the width has
    /// been resolved; resolves it on demand.
    pub fn get_scale_x(&mut self, e: ElementId) -> (r: Result<Rational, LayoutError>)
        ensures
            evolves(*old(self), *final(self)),
            e >= old(self).elements@.len() ==> r == Err::<Rational, LayoutError>(
                LayoutError::MissingElement(e),
            ) && *final(self) == *old(self),
            e < old(self).elements@.len() ==> {
                &&& (r matches Ok(v) ==> (size_slot(final(self).elements@[e as int], Dir::Horizontal)
                    is Calculated && v == scale_val(final(self).elements@[e as int], Dir::Horizontal)))
                &&& (size_slot(old(self).elements@[e as int], Dir::Horizontal) is Calculated
                    ==> *final(self) == *old(self) && r == Ok::<Rational, LayoutError>(
                    scale_val(old(self).elements@[e as int], Dir::Horizontal),
                ))
                &&& (size_slot(old(self).elements@[e as int], Dir::Horizontal) is Calculating ==> r
                    == Err::<Rational, LayoutError>(LayoutError::Recursive(e)) && *final(self)
                    == *old(self))
                &&& ((size_slot(old(self).elements@[e as int], Dir::Horizontal) is Unknown && size_ready(
                    *old(self),
                    e as int,
                    Dir::Horizontal,
                )) ==> (r matches Ok(v) && v@ == scale_after(
                    old(self).elements@[e as int],
                    Dir::Horizontal,
                    size_ready_val(*old(self), e as int, Dir::Horizontal),
                )))
            },
    {
        proof {
            lemma_evolves_refl(*self);
        }
        if e >= self.elements.len() {
            return Err(LayoutError::MissingElement(e));
        }
        let fuel = self.fuel_budget();
        self.get_scale(e, Dir::Horizontal, fuel)
    }

    /// The cumulative vertical scale ratio, valid once the height has
    /// been resolved; resolves it on demand.
    pub fn get_scale_y(&mut self, e: ElementId) -> (r: Result<Rational, LayoutError>)
        ensures
            evolves(*old(self), *final(self)),
            e >= old(self).elements@.len() ==> r == Err::<Rational, LayoutError>(
                LayoutError::MissingElement(e),
            ) && *final(self) == *old(self),
            e < old(self).elements@.len() ==> {
                &&& (r matches Ok(v) ==> (size_slot(final(self).elements@[e as int], Dir::Vertical)
                    is Calculated && v == scale_val(final(self).elements@[e as int], Dir::Vertical)))
                &&& (size_slot(old(self).elements@[e as int], Dir::Vertical) is Calculated
                    ==> *final(self) == *old(self) && r == Ok::<Rational, LayoutError>(
                    scale_val(old(self).elements@[e as int], Dir::Vertical),
                ))
                &&& (size_slot(old(self).elements@[e as int], Dir::Vertical) is Calculating ==> r
                    == Err::<Rational, LayoutError>(LayoutError::Recursive(e)) && *final(self)
                    == *old(self))
                &&& ((size_slot(old(self).elements@[e as int], Dir::Vertical) is Unknown && size_ready(
                    *old(self),
                    e as int,
                    Dir::Vertical,
                )) ==> (r matches Ok(v) && v@ == scale_after(
                    old(self).elements@[e as int],
                    Dir::Vertical,
                    size_ready_val(*old(self), e as int, Dir::Vertical),
                )))
            },
    {
        proof {
            lemma_evolves_refl(*self);
        }
        if e >= self.elements.len() {
            return Err(LayoutError::MissingElement(e));
        }
        let fuel = self.fuel_budget();
        self.get_scale(e, Dir::Vertical, fuel)
    }
}

/// Scale accumulation: when an element's size resolved to `w1` in one
/// frame and, after `prepare`, resolves to `w2` in the next, the
/// cumulative scale is the previous scale multiplied by exactly
/// `w2 / w1`.
pub proof fn lemma_scale_accumulation(
    el1: UIElement,
    el2: UIElement,
    dir: Dir,
    w1: Rational,
    w2: Rational,
)
    requires
        size_slot(el1, dir) == ConstraintState::Calculated(w1),
        w1@.n != 0,
        scale_evolves(prepared(el1), el2, dir),
        size_slot(el2, dir) == ConstraintState::Calculated(w2),
    ensures
        scale_val(el2, dir)@ == frac_mul(scale_val(el1, dir)@, frac_div(w2@, w1@)),
{
    assert(size_slot(prepared(el1), dir) is Unknown);
    assert(last_slot(prepared(el1), dir) == ConstraintState::Calculated(w1));
    assert(scale_val(prepared(el1), dir) == scale_val(el1, dir));
}

} // verus!

verus! {

/// Idempotence: two position queries of the same element without an
/// intervening `prepare` return the identical value, and the second
/// leaves the system untouched.
pub proof fn lemma_pos_query_idempotent(
    s1: UISystem,
    s2: UISystem,
    s3: UISystem,
    e: ElementId,
    dir: Dir,
    v: Rational,
    r2: Result<Rational, LayoutError>,
)
    requires
        e < s1.elements@.len(),
        pos_query_ok(s1, s2, e, dir, Ok(v)),
        pos_query_ok(s2, s3, e, dir, r2),
    ensures
        r2 == Ok::<Rational, LayoutError>(v),
        s3 == s2,
{
}

/// Idempotence for sizes: a second query returns the memoised value
/// bit for bit and changes nothing.
pub proof fn lemma_size_query_idempotent(
    s1: UISystem,
    s2: UISystem,
    s3: UISystem,
    e: ElementId,
    dir: Dir,
    v: Rational,
    r2: Result<Rational, LayoutError>,
)
    requires
        e < s1.elements@.len(),
        size_query_ok(s1, s2, e, dir, Ok(v)),
        size_query_ok(s2, s3, e, dir, r2),
    ensures
        r2 == Ok::<Rational, LayoutError>(v),
        s3 == s2,
{
}

/// A position rule anchored on the element itself is caught before any
/// recursion: the query warns and yields zero rather than cycling.
pub proof fn lemma_self_anchor_defaults(
    pre: UISystem,
    post: UISystem,
    e: ElementId,
    dir: Dir,
    r: Result<Rational, LayoutError>,
)
    requires
        e < pre.elements@.len(),
        pos_slot(pre.elements@[e as int], dir) is Unknown,
        pre.elements@[e as int].constraints.parent is Some,
        norm_ref(
            pre.elements@[e as int].constraints.parent->0,
            pre.elements@[e as int].parent.0,
            pos_rule_of(pre.elements@[e as int], dir).from_ref,
        ) == ElementRef::This,
        pos_query_ok(pre, post, e, dir, r),
    ensures
        r matches Ok(v) && v@ == frac_int(0),
        post.warnings@ == pre.warnings@.push(e),
{
}

} // verus!

verus! {

/// Flagging the queried position slot as in evaluation changes
/// nothing a ready rule reads.
pub proof fn lemma_pos_ready_after_mark(a: UISystem, b: UISystem, e: int, dir: Dir)
    requires
        0 <= e < a.elements@.len(),
        pos_slot(a.elements@[e], dir) is Unknown,
        b.screen == a.screen,
        b.elements@ == a.elements@.update(
            e,
            with_pos_slot(a.elements@[e], dir, ConstraintState::Calculating),
        ),
    ensures
        pos_ready(b, e, dir) == pos_ready(a, e, dir),
        pos_ready(a, e, dir) ==> pos_ready_val(b, e, dir) == pos_ready_val(a, e, dir),
{
    let el_a = a.elements@[e];
    let el_b = b.elements@[e];
    assert(el_b.constraints.parent == el_a.constraints.parent);
    assert(el_b.parent == el_a.parent);
    assert(pos_rule_of(el_b, dir) == pos_rule_of(el_a, dir));
    assert(size_slot(el_b, dir) == size_slot(el_a, dir));
    match el_a.constraints.parent {
        None => {},
        Some(own) => {
            let par = el_a.parent.0;
            let rule = pos_rule_of(el_a, dir);
            let nf = norm_ref(own, par, rule.from_ref);
            if nf != ElementRef::This {
                lemma_offset_reads_equal_mark(a, b, e, e, own, par, rule.relative, rule.value, rule.percent, dir);
                lemma_anchor_reads_equal_mark(a, b, e, nf, par, dir);
            }
        },
    }
}

/// Offsets read dimensions and scales, never position slots, so a
/// position mark leaves them untouched.
proof fn lemma_offset_reads_equal_mark(
    a: UISystem,
    b: UISystem,
    e: int,
    j: int,
    own: ElementId,
    par: Option<ElementId>,
    relative: Option<(Axis, ElementRef)>,
    value: Rational,
    percent: bool,
    dir: Dir,
)
    requires
        0 <= e < a.elements@.len(),
        0 <= j < a.elements@.len(),
        b.screen == a.screen,
        b.elements@ == a.elements@.update(
            e,
            with_pos_slot(a.elements@[e], dir, ConstraintState::Calculating),
        ),
    ensures
        offset_ready(b, j, own, par, relative, value, percent) == offset_ready(
            a,
            j,
            own,
            par,
            relative,
            value,
            percent,
        ),
        offset_ready(a, j, own, par, relative, value, percent) ==> offset_val(
            b,
            j,
            own,
            par,
            relative,
            value,
            percent,
        ) == offset_val(a, j, own, par, relative, value, percent),
{
    assert forall|t: int| 0 <= t < a.elements@.len() implies {
        &&& b.elements@[t].constraints.width == a.elements@[t].constraints.width
        &&& b.elements@[t].constraints.height == a.elements@[t].constraints.height
        &&& b.elements@[t].constraints.scale_x == a.elements@[t].constraints.scale_x
        &&& b.elements@[t].constraints.scale_y == a.elements@[t].constraints.scale_y
    } by {
        if t != e {
            assert(b.elements@[t] == a.elements@[t]);
        }
    }
}

/// The anchor of a slot being marked cannot be the marked slot itself,
/// since a resolved anchor is `Calculated` and the marked slot is not.
proof fn lemma_anchor_reads_equal_mark(
    a: UISystem,
    b: UISystem,
    e: int,
    nf: ElementRef,
    par: Option<ElementId>,
    dir: Dir,
)
    requires
        0 <= e < a.elements@.len(),
        pos_slot(a.elements@[e], dir) is Unknown,
        b.screen == a.screen,
        b.elements@ == a.elements@.update(
            e,
            with_pos_slot(a.elements@[e], dir, ConstraintState::Calculating),
        ),
    ensures
        anchor_pos_defined(b, nf, par, dir) == anchor_pos_defined(a, nf, par, dir),
        anchor_pos_defined(a, nf, par, dir) ==> anchor_pos(b, nf, par, dir) == anchor_pos(
            a,
            nf,
            par,
            dir,
        ),
        anchor_size_defined(b, nf, par, dir) == anchor_size_defined(a, nf, par, dir),
        anchor_size_defined(a, nf, par, dir) ==> anchor_size(b, nf, par, dir) == anchor_size(
            a,
            nf,
            par,
            dir,
        ),
{
    match nf {
        ElementRef::Screen => {},
        ElementRef::Parent => {
            if par is Some && 0 <= par->0 < a.elements@.len() {
                let t = par->0 as int;
                if t != e {
                    assert(b.elements@[t] == a.elements@[t]);
                } else {
                    assert(size_slot(b.elements@[t], dir) == size_slot(a.elements@[t], dir));
                }
            }
        },
        ElementRef::Other(id) => {
            if 0 <= id < a.elements@.len() {
                let t = id as int;
                if t != e {
                    assert(b.elements@[t] == a.elements@[t]);
                } else {
                    assert(size_slot(b.elements@[t], dir) == size_slot(a.elements@[t], dir));
                }
            }
        },
        ElementRef::This => {},
    }
}

/// Flagging the queried size slot as in evaluation changes nothing a
/// ready size rule reads.
pub proof fn lemma_size_ready_after_mark(a: UISystem, b: UISystem, e: int, dir: Dir)
    requires
        0 <= e < a.elements@.len(),
        size_slot(a.elements@[e], dir) is Unknown,
        b.screen == a.screen,
        b.elements@ == a.elements@.update(
            e,
            with_size_slot(a.elements@[e], dir, ConstraintState::Calculating),
        ),
    ensures
        size_ready(b, e, dir) == size_ready(a, e, dir),
        size_ready(a, e, dir) ==> size_ready_val(b, e, dir) == size_ready_val(a, e, dir),
{
    let el_a = a.elements@[e];
    let el_b = b.elements@[e];
    assert(el_b.constraints.parent == el_a.constraints.parent);
    assert(el_b.parent == el_a.parent);
    assert(size_rule_of(el_b, dir) == size_rule_of(el_a, dir));
    assert(last_slot(el_b, dir) == last_slot(el_a, dir));
    assert(scale_val(el_b, dir) == scale_val(el_a, dir));
    assert(size_slot(el_b, flip(dir)) == size_slot(el_a, flip(dir)));
    assert(scale_val(el_b, flip(dir)) == scale_val(el_a, flip(dir)));
    match el_a.constraints.parent {
        None => {},
        Some(own) => {
            let par = el_a.parent.0;
            let rule = size_rule_of(el_a, dir);
            match rule.relative {
                None => {},
                Some((axis, rr)) => {
                    let nr = norm_ref(own, par, rr);
                    match nr {
                        ElementRef::Parent => {
                            if par is Some && 0 <= par->0 < a.elements@.len() {
                                lemma_source_reads_equal_size_mark(
                                    a,
                                    b,
                                    e,
                                    par->0 as int,
                                    axis,
                                    rule.percent,
                                    dir,
                                );
                            }
                        },
                        ElementRef::Other(id) => {
                            if 0 <= id < a.elements@.len() {
                                lemma_source_reads_equal_size_mark(
                                    a,
                                    b,
                                    e,
                                    id as int,
                                    axis,
                                    rule.percent,
                                    dir,
                                );
                            }
                        },
                        _ => {},
                    }
                },
            }
        },
    }
}

/// A source that is ready cannot involve the slot being marked: a
/// resolved dimension is `Calculated` and the marked slot is not.
proof fn lemma_source_reads_equal_size_mark(
    a: UISystem,
    b: UISystem,
    e: int,
    t: int,
    axis: Axis,
    percent: bool,
    dir: Dir,
)
    requires
        0 <= e < a.elements@.len(),
        0 <= t < a.elements@.len(),
        size_slot(a.elements@[e], dir) is Unknown,
        b.elements@ == a.elements@.update(
            e,
            with_size_slot(a.elements@[e], dir, ConstraintState::Calculating),
        ),
    ensures
        source_ready(b, t, axis, percent) == source_ready(a, t, axis, percent),
        source_ready(a, t, axis, percent) ==> {
            &&& elem_dim(b.elements@[t], axis) == elem_dim(a.elements@[t], axis)
            &&& elem_scale(b.elements@[t], axis) == elem_scale(a.elements@[t], axis)
        },
{
    if t != e {
        assert(b.elements@[t] == a.elements@[t]);
    } else {
        assert(size_slot(b.elements@[t], flip(dir)) == size_slot(a.elements@[t], flip(dir)));
        assert(scale_val(b.elements@[t], flip(dir)) == scale_val(a.elements@[t], flip(dir)));
        assert(scale_val(b.elements@[t], dir) == scale_val(a.elements@[t], dir));
    }
}

} // verus!

verus! {

/// On a ready input the outcome is a function of the starting state
/// alone: any two position queries from the same prepared state
/// return the same value. With `prepare`'s exact contract this is the
/// frame-isolation guarantee for resolvable rules.
pub proof fn lemma_pos_query_deterministic(
    pre: UISystem,
    post1: UISystem,
    post2: UISystem,
    e: ElementId,
    dir: Dir,
    r1: Result<Rational, LayoutError>,
    r2: Result<Rational, LayoutError>,
)
    requires
        e < pre.elements@.len(),
        pos_slot(pre.elements@[e as int], dir) is Unknown,
        pos_ready(pre, e as int, dir),
        pos_query_ok(pre, post1, e, dir, r1),
        pos_query_ok(pre, post2, e, dir, r2),
    ensures
        r1 matches Ok(v1) && r2 matches Ok(v2) && v1@ == v2@,
{
}

/// The size twin of [`lemma_pos_query_deterministic`].
pub proof fn lemma_size_query_deterministic(
    pre: UISystem,
    post1: UISystem,
    post2: UISystem,
    e: ElementId,
    dir: Dir,
    r1: Result<Rational, LayoutError>,
    r2: Result<Rational, LayoutError>,
)
    requires
        e < pre.elements@.len(),
        size_slot(pre.elements@[e as int], dir) is Unknown,
        size_ready(pre, e as int, dir),
        size_query_ok(pre, post1, e, dir, r1),
        size_query_ok(pre, post2, e, dir, r2),
    ensures
        r1 matches Ok(v1) && r2 matches Ok(v2) && v1@ == v2@,
{
}

} // verus!
