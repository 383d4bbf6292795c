use garden::constraints::Axis;
use garden::constraints::ConstraintHeight;
use garden::constraints::ConstraintWidth;
use garden::constraints::ConstraintX;
use garden::constraints::ConstraintY;
use garden::constraints::ElementRef;
use garden::constraints::ScreenProperty;
use garden::constraints::SideX;
use garden::constraints::SideY;
use garden::engine::prepare_elements;
use garden::engine::LayoutError;
use garden::engine::UISystem;
use garden::rational::Rational;

fn screen(width: u32, height: u32, sx: i64, sy: i64) -> ScreenProperty {
    ScreenProperty {
        width,
        height,
        scale_x: Rational::from_int(sx),
        scale_y: Rational::from_int(sy),
    }
}

fn rat(n: i64, d: i64) -> Rational {
    Rational::new(n, d).unwrap()
}

fn expect_int(r: Result<Rational, LayoutError>, i: i64) {
    let v = r.expect("query should succeed");
    assert!(
        v.eq_value(&Rational::from_int(i)),
        "expected {}, got {}/{}",
        i,
        v.numerator(),
        v.denominator()
    );
}

#[test]
fn scenario_screen_percent_and_centered() {
    // 800x600 screen; width = 10% of screen width, x centered on screen
    let mut sys = UISystem::new(screen(800, 600, 1, 1));
    let a = sys.add_element();
    sys.elements[a].constraints.constraint_width =
        ConstraintWidth::percent(rat(1, 10), (Axis::X, ElementRef::Screen));
    sys.elements[a].constraints.constraint_x =
        ConstraintX::pixel_centered(Rational::zero(), ElementRef::Screen);
    prepare_elements(&mut sys);
    expect_int(sys.get_width(a), 80);
    expect_int(sys.get_x(a), 360);
}

#[test]
fn scenario_from_right_of_other() {
    // B sits 20px to the right of A's right edge
    let mut sys = UISystem::new(screen(800, 600, 1, 1));
    let a = sys.add_element();
    sys.elements[a].constraints.constraint_width =
        ConstraintWidth::percent(rat(1, 10), (Axis::X, ElementRef::Screen));
    sys.elements[a].constraints.constraint_x =
        ConstraintX::pixel_centered(Rational::zero(), ElementRef::Screen);
    let b = sys.add_element();
    sys.elements[b].constraints.constraint_x =
        ConstraintX::pixel(Rational::from_int(20), (SideX::FromRight, ElementRef::Other(a)));
    prepare_elements(&mut sys);
    expect_int(sys.get_x(a), 360);
    expect_int(sys.get_width(a), 80);
    expect_int(sys.get_x(b), 460);
}

#[test]
fn scenario_resize_with_scale() {
    // width = 50px relative to the screen's x scale: 50 before the
    // resize, 100 once the scale doubles
    let mut sys = UISystem::new(screen(800, 600, 1, 1));
    let a = sys.add_element();
    sys.elements[a].constraints.constraint_width =
        ConstraintWidth::pixel_relative(Rational::from_int(50), (Axis::X, ElementRef::Screen));
    prepare_elements(&mut sys);
    expect_int(sys.get_width(a), 50);
    sys.screen = screen(1600, 600, 2, 1);
    prepare_elements(&mut sys);
    expect_int(sys.get_width(a), 100);
}

#[test]
fn width_is_idempotent_within_a_frame() {
    let mut sys = UISystem::new(screen(800, 600, 1, 1));
    let a = sys.add_element();
    sys.elements[a].constraints.constraint_width =
        ConstraintWidth::percent(rat(1, 10), (Axis::X, ElementRef::Screen));
    prepare_elements(&mut sys);
    let first = sys.get_width(a).unwrap();
    let second = sys.get_width(a).unwrap();
    assert_eq!(first.numerator(), second.numerator());
    assert_eq!(first.denominator(), second.denominator());
}

#[test]
fn frame_isolation_memo_until_prepare() {
    let mut sys = UISystem::new(screen(800, 600, 1, 1));
    let a = sys.add_element();
    sys.elements[a].constraints.constraint_width =
        ConstraintWidth::percent(rat(1, 10), (Axis::X, ElementRef::Screen));
    prepare_elements(&mut sys);
    expect_int(sys.get_width(a), 80);
    // mutating the screen mid-frame does not disturb the memo
    sys.screen = screen(400, 600, 1, 1);
    expect_int(sys.get_width(a), 80);
    // the next frame recomputes from the new screen
    prepare_elements(&mut sys);
    expect_int(sys.get_width(a), 40);
}

#[test]
fn scale_accumulates_across_frames() {
    // width resolves to 80 in frame one and 160 in frame two, so the
    // cumulative x scale doubles
    let mut sys = UISystem::new(screen(800, 600, 1, 1));
    let a = sys.add_element();
    sys.elements[a].constraints.constraint_width =
        ConstraintWidth::percent(rat(1, 10), (Axis::X, ElementRef::Screen));
    prepare_elements(&mut sys);
    expect_int(sys.get_width(a), 80);
    expect_int(sys.get_scale_x(a), 1);
    sys.screen = screen(1600, 600, 1, 1);
    prepare_elements(&mut sys);
    expect_int(sys.get_width(a), 160);
    expect_int(sys.get_scale_x(a), 2);
    // and halves again on the way back
    sys.screen = screen(800, 600, 1, 1);
    prepare_elements(&mut sys);
    expect_int(sys.get_width(a), 80);
    expect_int(sys.get_scale_x(a), 1);
}

#[test]
fn self_anchor_warns_and_defaults() {
    let mut sys = UISystem::new(screen(800, 600, 1, 1));
    let a = sys.add_element();
    sys.elements[a].constraints.constraint_x =
        ConstraintX::pixel(Rational::from_int(5), (SideX::InLeft, ElementRef::This));
    prepare_elements(&mut sys);
    assert_eq!(sys.warnings.len(), 0);
    expect_int(sys.get_x(a), 0);
    assert_eq!(sys.warnings.len(), 1);
    assert_eq!(sys.warnings[0], a);
}

#[test]
fn other_naming_self_collapses_to_this() {
    let mut sys = UISystem::new(screen(800, 600, 1, 1));
    let a = sys.add_element();
    sys.elements[a].constraints.constraint_x =
        ConstraintX::pixel(Rational::from_int(5), (SideX::InLeft, ElementRef::Other(a)));
    prepare_elements(&mut sys);
    expect_int(sys.get_x(a), 0);
    assert_eq!(sys.warnings.len(), 1);
}

#[test]
fn mutual_anchors_report_a_cycle() {
    let mut sys = UISystem::new(screen(800, 600, 1, 1));
    let a = sys.add_element();
    let b = sys.add_element();
    sys.elements[a].constraints.constraint_x =
        ConstraintX::pixel(Rational::from_int(1), (SideX::InLeft, ElementRef::Other(b)));
    sys.elements[b].constraints.constraint_x =
        ConstraintX::pixel(Rational::from_int(1), (SideX::InLeft, ElementRef::Other(a)));
    prepare_elements(&mut sys);
    assert!(matches!(sys.get_x(a), Err(LayoutError::Recursive(_))));
}

#[test]
fn missing_reference_is_reported() {
    let mut sys = UISystem::new(screen(800, 600, 1, 1));
    let a = sys.add_element();
    sys.elements[a].constraints.constraint_x =
        ConstraintX::pixel(Rational::from_int(1), (SideX::InLeft, ElementRef::Other(99)));
    prepare_elements(&mut sys);
    assert!(matches!(sys.get_x(a), Err(LayoutError::MissingElement(99))));
    assert!(matches!(sys.get_x(99), Err(LayoutError::MissingElement(99))));
}

#[test]
fn defaults_resolve_to_origin_and_unit_size() {
    let mut sys = UISystem::new(screen(800, 600, 1, 1));
    let a = sys.add_element();
    prepare_elements(&mut sys);
    expect_int(sys.get_x(a), 0);
    expect_int(sys.get_y(a), 0);
    expect_int(sys.get_width(a), 1);
    expect_int(sys.get_height(a), 1);
    expect_int(sys.get_scale_x(a), 1);
    expect_int(sys.get_scale_y(a), 1);
}

#[test]
fn unapplied_box_resolves_to_defaults() {
    let mut sys = UISystem::new(screen(800, 600, 1, 1));
    let a = sys.add_element();
    sys.elements[a].constraints.parent = None;
    sys.elements[a].constraints.constraint_x =
        ConstraintX::pixel(Rational::from_int(7), (SideX::InLeft, ElementRef::Screen));
    prepare_elements(&mut sys);
    expect_int(sys.get_x(a), 0);
    expect_int(sys.get_width(a), 1);
}

#[test]
fn parent_reference_degrades_to_screen_without_parent() {
    let mut sys = UISystem::new(screen(800, 600, 1, 1));
    let a = sys.add_element();
    sys.elements[a].constraints.constraint_width =
        ConstraintWidth::percent(rat(1, 2), (Axis::X, ElementRef::Parent));
    prepare_elements(&mut sys);
    expect_int(sys.get_width(a), 400);
}

#[test]
fn percent_of_parent_dimension() {
    let mut sys = UISystem::new(screen(800, 600, 1, 1));
    let p = sys.add_element();
    sys.elements[p].constraints.constraint_width =
        ConstraintWidth::percent(rat(1, 2), (Axis::X, ElementRef::Screen));
    let c = sys.add_element();
    sys.elements[c].parent.0 = Some(p);
    sys.elements[c].constraints.constraint_width =
        ConstraintWidth::percent(rat(1, 4), (Axis::X, ElementRef::Parent));
    prepare_elements(&mut sys);
    expect_int(sys.get_width(p), 400);
    expect_int(sys.get_width(c), 100);
}

#[test]
fn y_axis_mirrors_x_axis() {
    let mut sys = UISystem::new(screen(800, 600, 1, 1));
    let a = sys.add_element();
    sys.elements[a].constraints.constraint_y =
        ConstraintY::pixel(Rational::from_int(20), (SideY::InTop, ElementRef::Screen));
    let b = sys.add_element();
    sys.elements[b].constraints.constraint_y =
        ConstraintY::pixel(Rational::from_int(10), (SideY::InBottom, ElementRef::Screen));
    sys.elements[b].constraints.constraint_height =
        ConstraintHeight::pixel(Rational::from_int(50));
    prepare_elements(&mut sys);
    expect_int(sys.get_y(a), 20);
    // in-bottom: 0 + 600 - 50 - 10
    expect_int(sys.get_y(b), 540);
}

#[test]
fn width_from_own_vertical_scale_is_safe() {
    // width = 30px relative to this element's own y scale; the height
    // resolves first, leaving the y scale at one
    let mut sys = UISystem::new(screen(800, 600, 1, 1));
    let a = sys.add_element();
    sys.elements[a].constraints.constraint_width =
        ConstraintWidth::pixel_relative(Rational::from_int(30), (Axis::Y, ElementRef::This));
    prepare_elements(&mut sys);
    expect_int(sys.get_width(a), 30);
    assert_eq!(sys.warnings.len(), 0);
}

#[test]
fn width_from_own_horizontal_scale_warns() {
    let mut sys = UISystem::new(screen(800, 600, 1, 1));
    let a = sys.add_element();
    sys.elements[a].constraints.constraint_width =
        ConstraintWidth::pixel_relative(Rational::from_int(30), (Axis::X, ElementRef::This));
    prepare_elements(&mut sys);
    expect_int(sys.get_width(a), 1);
    assert_eq!(sys.warnings.len(), 1);
}

#[test]
fn anchor_sides_follow_their_formulas() {
    let mut sys = UISystem::new(screen(800, 600, 1, 1));
    let a = sys.add_element();
    sys.elements[a].constraints.constraint_x =
        ConstraintX::pixel_in_left(Rational::from_int(100), ElementRef::Screen);
    sys.elements[a].constraints.constraint_width =
        ConstraintWidth::pixel(Rational::from_int(40));
    let b = sys.add_element();
    sys.elements[b].constraints.constraint_width =
        ConstraintWidth::pixel(Rational::from_int(10));
    prepare_elements(&mut sys);
    // from-left: a.x - b.width - 5 = 100 - 10 - 5
    sys.elements[b].constraints.constraint_x =
        ConstraintX::pixel(Rational::from_int(5), (SideX::FromLeft, ElementRef::Other(a)));
    expect_int(sys.get_x(b), 85);
    prepare_elements(&mut sys);
    // from-right: a.x + a.width + 5 = 100 + 40 + 5
    sys.elements[b].constraints.constraint_x =
        ConstraintX::pixel(Rational::from_int(5), (SideX::FromRight, ElementRef::Other(a)));
    expect_int(sys.get_x(b), 145);
    prepare_elements(&mut sys);
    // in-right: a.x + a.width - b.width - 5 = 100 + 40 - 10 - 5
    sys.elements[b].constraints.constraint_x =
        ConstraintX::pixel(Rational::from_int(5), (SideX::InRight, ElementRef::Other(a)));
    expect_int(sys.get_x(b), 125);
    prepare_elements(&mut sys);
    // centered on a with offset 5: 100 + (40 - 10) / 2 + 5
    sys.elements[b].constraints.constraint_x =
        ConstraintX::pixel_relative_centered(
            Rational::from_int(5),
            ElementRef::Other(a),
            (Axis::X, ElementRef::Screen),
        );
    expect_int(sys.get_x(b), 120);
}

#[test]
fn relative_axis_min_max_average() {
    let mut sys = UISystem::new(screen(800, 600, 1, 1));
    let a = sys.add_element();
    sys.elements[a].constraints.constraint_width =
        ConstraintWidth::percent(Rational::one(), (Axis::Min, ElementRef::Screen));
    let b = sys.add_element();
    sys.elements[b].constraints.constraint_width =
        ConstraintWidth::percent(Rational::one(), (Axis::Max, ElementRef::Screen));
    let c = sys.add_element();
    sys.elements[c].constraints.constraint_width =
        ConstraintWidth::percent(Rational::one(), (Axis::Average, ElementRef::Screen));
    prepare_elements(&mut sys);
    expect_int(sys.get_width(a), 600);
    expect_int(sys.get_width(b), 800);
    expect_int(sys.get_width(c), 700);
}

#[test]
fn overflow_is_reported_not_wrapped() {
    let mut sys = UISystem::new(screen(800, 600, 1, 1));
    let a = sys.add_element();
    let huge = Rational::from_int(i64::MAX);
    sys.elements[a].constraints.constraint_width =
        ConstraintWidth::pixel_relative(huge, (Axis::X, ElementRef::Screen));
    sys.screen.scale_x = Rational::from_int(3);
    prepare_elements(&mut sys);
    assert!(matches!(sys.get_width(a), Err(LayoutError::Overflow)));
}

#[test]
fn height_tracks_own_width_for_squares() {
    // height = 100% of this element's width: the safe self-reference
    let mut sys = UISystem::new(screen(800, 600, 1, 1));
    let a = sys.add_element();
    sys.elements[a].constraints.constraint_width =
        ConstraintWidth::percent(rat(1, 10), (Axis::X, ElementRef::Screen));
    sys.elements[a].constraints.constraint_height =
        ConstraintHeight::percent(Rational::one(), (Axis::X, ElementRef::This));
    prepare_elements(&mut sys);
    expect_int(sys.get_width(a), 80);
    expect_int(sys.get_height(a), 80);
    assert_eq!(sys.warnings.len(), 0);
}

#[test]
fn height_from_own_height_warns() {
    // height = 100% of this element's own height: the axis that would
    // read the value being computed
    let mut sys = UISystem::new(screen(800, 600, 1, 1));
    let a = sys.add_element();
    sys.elements[a].constraints.constraint_height =
        ConstraintHeight::percent(Rational::one(), (Axis::Y, ElementRef::This));
    prepare_elements(&mut sys);
    expect_int(sys.get_height(a), 1);
    assert_eq!(sys.warnings.len(), 1);
}

#[test]
fn percent_position_from_screen_edge() {
    // x sits 25% of the screen width inside the left edge
    let mut sys = UISystem::new(screen(800, 600, 1, 1));
    let a = sys.add_element();
    sys.elements[a].constraints.constraint_x = ConstraintX::percent(
        rat(1, 4),
        (Axis::X, ElementRef::Screen),
        (SideX::InLeft, ElementRef::Screen),
    );
    prepare_elements(&mut sys);
    expect_int(sys.get_x(a), 200);
}

#[test]
fn percent_centered_on_screen() {
    // offset of 5% of the screen width from the centered position
    let mut sys = UISystem::new(screen(800, 600, 1, 1));
    let a = sys.add_element();
    sys.elements[a].constraints.constraint_width =
        ConstraintWidth::pixel(Rational::from_int(100));
    sys.elements[a].constraints.constraint_x = ConstraintX::percent_centered(
        rat(1, 20),
        ElementRef::Screen,
        (Axis::X, ElementRef::Screen),
    );
    prepare_elements(&mut sys);
    // 0 + (800 - 100) / 2 + 40
    expect_int(sys.get_x(a), 390);
}

#[test]
fn prepare_snapshots_before_constraint_changes() {
    // the scale ratio is taken against the previous frame's resolved
    // size even when the rule itself changed in between
    let mut sys = UISystem::new(screen(800, 600, 1, 1));
    let a = sys.add_element();
    sys.elements[a].constraints.constraint_width =
        ConstraintWidth::pixel(Rational::from_int(50));
    prepare_elements(&mut sys);
    expect_int(sys.get_width(a), 50);
    sys.elements[a].constraints.constraint_width =
        ConstraintWidth::pixel(Rational::from_int(150));
    prepare_elements(&mut sys);
    expect_int(sys.get_width(a), 150);
    expect_int(sys.get_scale_x(a), 3);
}

#[test]
fn centered_rules_normalise_their_references() {
    // with no parent, both the anchor and the relative target written
    // as Parent degrade to the screen
    let mut sys = UISystem::new(screen(800, 600, 1, 1));
    let a = sys.add_element();
    sys.elements[a].constraints.constraint_width =
        ConstraintWidth::pixel(Rational::from_int(100));
    sys.elements[a].constraints.constraint_x = ConstraintX::percent_centered(
        rat(1, 20),
        ElementRef::Parent,
        (Axis::X, ElementRef::Parent),
    );
    prepare_elements(&mut sys);
    // 0 + (800 - 100) / 2 + 800 / 20
    expect_int(sys.get_x(a), 390);
}

#[test]
fn zero_size_snapshot_leaves_scale_alone() {
    // a zero width in one frame must not poison the scale ratio
    let mut sys = UISystem::new(screen(800, 600, 1, 1));
    let a = sys.add_element();
    sys.elements[a].constraints.constraint_width =
        ConstraintWidth::pixel(Rational::zero());
    prepare_elements(&mut sys);
    expect_int(sys.get_width(a), 0);
    sys.elements[a].constraints.constraint_width =
        ConstraintWidth::pixel(Rational::from_int(50));
    prepare_elements(&mut sys);
    expect_int(sys.get_width(a), 50);
    expect_int(sys.get_scale_x(a), 1);
}
