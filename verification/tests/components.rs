use garden::assets::EffectMode;
use garden::assets::QuadGroup;
use garden::config::AppConfiguration;
use garden::config::UpdateCap;
use garden::constraints::check_relative;
use garden::constraints::Constraints;
use garden::constraints::ElementRef;
use garden::constraints::ScreenProperty;
use garden::ecs::Component;
use garden::ecs::ComponentKind;
use garden::ecs::Entity;
use garden::ecs::System;
use garden::engine::ParentComponent;
use garden::engine::SceneComponent;
use garden::engine::ZIndexComponent;
use garden::logger::Log;
use garden::logger::Logger;
use garden::logger::LogLevel;
use garden::rational::Rational;
use garden::window::Action;
use garden::window::WindowConfig;

#[test]
fn reference_normalisation() {
    let mut r = ElementRef::Parent;
    check_relative(0, None, &mut r);
    assert_eq!(r, ElementRef::Screen);

    let mut r = ElementRef::Parent;
    check_relative(0, Some(3), &mut r);
    assert_eq!(r, ElementRef::Parent);

    let mut r = ElementRef::Other(5);
    check_relative(5, Some(3), &mut r);
    assert_eq!(r, ElementRef::This);

    let mut r = ElementRef::Other(3);
    check_relative(5, Some(3), &mut r);
    assert_eq!(r, ElementRef::Parent);

    let mut r = ElementRef::Other(7);
    check_relative(5, Some(3), &mut r);
    assert_eq!(r, ElementRef::Other(7));

    let mut r = ElementRef::Screen;
    check_relative(5, Some(3), &mut r);
    assert_eq!(r, ElementRef::Screen);
}

#[test]
fn action_frame_decay() {
    let mut a = Action::Pressed;
    assert!(a.is_pressed());
    assert!(a.is_pressed_or_down());
    assert!(!a.is_down());
    a.update();
    assert!(a.is_down());
    a.update();
    assert!(a.is_down());

    let mut b = Action::Released;
    assert!(b.is_released());
    assert!(b.is_released_or_up());
    b.update();
    assert!(b.is_up());
    assert!(b.is_pressed_or_up());
    assert!(b.is_down_or_up());
    assert!(!b.is_down_or_released());
    assert!(!b.is_pressed_or_released());
}

#[test]
fn logger_filters_by_level() {
    let mut logger = Logger::new();
    assert_eq!(logger.level, LogLevel::Info);
    logger.info("core".to_string(), "starting".to_string());
    logger.debug("core".to_string(), "ignored".to_string());
    logger.error("core".to_string(), "broken".to_string());
    assert_eq!(logger.entries.len(), 2);
    assert_eq!(logger.entries[0].level, LogLevel::Info);
    assert_eq!(logger.entries[1].level, LogLevel::Error);

    logger.set_level(LogLevel::Error);
    logger.warn("core".to_string(), "dropped".to_string());
    assert_eq!(logger.entries.len(), 2);

    logger.set_level(LogLevel::Debug);
    logger.debug("core".to_string(), "kept now".to_string());
    assert_eq!(logger.entries.len(), 3);
    assert_eq!(logger.entries[2].message, "kept now");
}

#[test]
fn log_entry_carries_its_fields() {
    let l = Log::new(LogLevel::Warning, "ui".to_string(), "odd size".to_string());
    assert_eq!(l.level, LogLevel::Warning);
    assert_eq!(l.label, "ui");
    assert_eq!(l.message, "odd size");
}

#[test]
fn quad_group_constructors_and_flips() {
    let mut q = QuadGroup::new(1, 2, 3, 4);
    q.flip_x();
    assert_eq!((q.top_left, q.top_right, q.bottom_left, q.bottom_right), (2, 1, 4, 3));
    q.flip_y();
    assert_eq!((q.top_left, q.top_right, q.bottom_left, q.bottom_right), (4, 3, 2, 1));
    q.flip();
    assert_eq!((q.top_left, q.top_right, q.bottom_left, q.bottom_right), (1, 2, 3, 4));

    let s = QuadGroup::single(9);
    assert_eq!((s.top_left, s.top_right, s.bottom_left, s.bottom_right), (9, 9, 9, 9));
    let v = QuadGroup::vertical(1, 2);
    assert_eq!((v.top_left, v.top_right, v.bottom_left, v.bottom_right), (1, 1, 2, 2));
    let h = QuadGroup::horizontal(1, 2);
    assert_eq!((h.top_left, h.top_right, h.bottom_left, h.bottom_right), (1, 2, 1, 2));
}

#[test]
fn entity_components_by_kind() {
    let mut e = Entity::new(7);
    assert_eq!(e.id(), 7);
    e.add_component(Component::ZIndex(ZIndexComponent(4)));
    e.add_component(Component::Parent(ParentComponent(Some(1))));
    e.add_component(Component::ZIndex(ZIndexComponent(9)));
    match e.get_component(ComponentKind::ZIndex) {
        Some(Component::ZIndex(z)) => assert_eq!(z.0, 4),
        _ => panic!("expected the first z-index component"),
    }
    assert!(e.get_component(ComponentKind::Scene).is_none());
    assert_eq!(e.get_components(ComponentKind::ZIndex).len(), 2);
    assert_eq!(e.get_components(ComponentKind::Parent).len(), 1);
    assert_eq!(e.get_components(ComponentKind::Constraints).len(), 0);
    e.add_component(Component::Scene(SceneComponent(None)));
    e.add_component(Component::Constraints(Constraints::default()));
    assert!(e.get_component(ComponentKind::Scene).is_some());
    assert!(e.get_component(ComponentKind::Constraints).is_some());
}

#[test]
fn system_finds_or_creates_entities() {
    let mut sys = System::new();
    assert!(sys.get_attribute().is_none());
    sys.add_attribute(ScreenProperty {
        width: 640,
        height: 480,
        scale_x: Rational::one(),
        scale_y: Rational::one(),
    });
    assert_eq!(sys.get_attribute().unwrap().width, 640);

    let a = sys.get_entity(10);
    let b = sys.get_entity(20);
    assert_ne!(a, b);
    assert_eq!(sys.get_entity(10), a);
    assert_eq!(sys.get_entity(20), b);
    assert_eq!(sys.entities.len(), 2);
    assert_eq!(sys.entities[a].id(), 10);
}

#[test]
fn configuration_defaults() {
    let w = WindowConfig::default();
    assert_eq!(w.width, 800);
    assert_eq!(w.height, 600);
    assert_eq!(w.title, "Title");

    let c = AppConfiguration::default();
    assert!(matches!(c.update_cap, UpdateCap::Vsync));
    assert_eq!(c.log_level, LogLevel::Info);
    assert_eq!(c.window_config.width, 800);
}

#[test]
fn effect_modes_are_distinct() {
    let modes = [
        EffectMode::Linear,
        EffectMode::EaseIn,
        EffectMode::EaseOut,
        EffectMode::EaseInOut,
    ];
    for (i, a) in modes.iter().enumerate() {
        for (j, b) in modes.iter().enumerate() {
            assert_eq!(a == b, i == j);
        }
    }
}

#[test]
fn queries_filter_entities() {
    let mut sys = System::new();
    sys.get_entity(5);
    sys.get_entity(10);
    sys.get_entity(15);
    let first_big = sys.query_entity(|e: &Entity| e.id() >= 10);
    assert_eq!(first_big, Some(1));
    assert_eq!(sys.query_entity(|e: &Entity| e.id() > 100), None);
    let all_odd = sys.query_entities(|e: &Entity| e.id() % 2 == 1);
    assert_eq!(all_odd, vec![0, 2]);
}
