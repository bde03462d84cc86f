use ehmi::{Color, Size, ToggleShape, ToggleStyle, ToggleSwitch};

#[test]
fn toggle_defaults() {
    let t = ToggleSwitch::new(true);
    assert!(t.on);
    assert!(t.label.is_none());
    assert_eq!(t.color, Color { r: 255, g: 255, b: 255, a: 255 });
    assert_eq!(t.style, ToggleStyle::Button);
    assert!(t.size.is_none());
    assert_eq!(t.font_size, 14_000);
}

#[test]
fn toggle_builders() {
    let t = ToggleSwitch::new(false)
        .label(String::from("pump"))
        .color(Color { r: 10, g: 20, b: 30, a: 255 })
        .style(ToggleStyle::Valve)
        .size(Size { x: 50_000, y: 30_000 })
        .font_size(12_000);
    assert_eq!(t.label.as_deref(), Some("pump"));
    assert_eq!(t.color, Color { r: 10, g: 20, b: 30, a: 255 });
    assert_eq!(t.style, ToggleStyle::Valve);
    assert_eq!(t.size, Some(Size { x: 50_000, y: 30_000 }));
    assert_eq!(t.font_size, 12_000);
}

#[test]
fn click_flips_state_exactly_once() {
    let mut t = ToggleSwitch::new(false);
    let changed = t.interact(true);
    assert!(changed);
    assert!(t.on);
    let changed = t.interact(true);
    assert!(changed);
    assert!(!t.on);
}

#[test]
fn no_click_leaves_state_alone() {
    let mut t = ToggleSwitch::new(true);
    let changed = t.interact(false);
    assert!(!changed);
    assert!(t.on);
}

#[test]
fn button_plan_geometry() {
    let t = ToggleSwitch::new(false);
    let p = t.plan(20_000, 8_000, None, 0);
    assert_eq!(p.full, Size { x: 40_000, y: 20_000 });
    assert_eq!(p.toggle_size, Size { x: 40_000, y: 20_000 });
    assert_eq!(p.margin, 0);
    assert_eq!((p.toggle_x0, p.toggle_y0, p.toggle_x1, p.toggle_y1), (0, 0, 40_000, 20_000));
    assert!(!p.outline_full);
    assert!(!p.outline_toggle);
    assert_eq!(p.stroke_color, Color { r: 255, g: 165, b: 0, a: 255 });
    assert!(!p.label_anchor_right);
    assert_eq!(p.label_x, 48_000);
    assert_eq!(p.label_y, 10_000);
    match p.shape {
        ToggleShape::Button { radius, fill, knob_x, knob_radius } => {
            assert_eq!(radius, 10_000);
            assert_eq!(fill, Color { r: 169, g: 169, b: 169, a: 255 });
            assert_eq!(knob_x, 10_000);
            assert_eq!(knob_radius, 7_500);
        }
        _ => panic!("expected a button shape"),
    }
}

#[test]
fn button_knob_slides_with_animation() {
    let t = ToggleSwitch::new(true);
    let knob_at = |t_anim: i64| -> i64 {
        match t.plan(20_000, 8_000, None, t_anim).shape {
            ToggleShape::Button { knob_x, .. } => knob_x,
            _ => panic!("expected a button shape"),
        }
    };
    assert_eq!(knob_at(0), 10_000);
    assert_eq!(knob_at(500), 20_000);
    assert_eq!(knob_at(1000), 30_000);
}

#[test]
fn button_on_state_colors() {
    let p = ToggleSwitch::new(true).plan(20_000, 8_000, None, 1000);
    assert_eq!(p.stroke_color, Color { r: 0, g: 255, b: 0, a: 255 });
    match p.shape {
        ToggleShape::Button { fill, .. } => {
            assert_eq!(fill, Color { r: 0, g: 255, b: 0, a: 255 });
        }
        _ => panic!("expected a button shape"),
    }
}

#[test]
fn relay_plan_geometry() {
    let t = ToggleSwitch::new(false).style(ToggleStyle::Relay);
    let p = t.plan(20_000, 8_000, None, 0);
    assert_eq!(p.full, Size { x: 60_000, y: 30_000 });
    assert_eq!(p.toggle_size, Size { x: 60_000, y: 30_000 });
    assert_eq!(p.margin, 8_000);
    assert_eq!((p.toggle_x0, p.toggle_x1), (8_000, 52_000));
    assert!(p.outline_full);
    assert!(!p.outline_toggle);
    match p.shape {
        ToggleShape::Relay { circle_radius, node_left, node_right, arm_angle_millideg, arm_length } => {
            assert_eq!(circle_radius, 1_760);
            assert_eq!(node_left, 22_666);
            assert_eq!(node_right, 37_334);
            assert_eq!(arm_angle_millideg, 45_000);
            assert_eq!(arm_length, 14_668);
        }
        _ => panic!("expected a relay shape"),
    }
}

#[test]
fn relay_arm_settles_when_on() {
    let t = ToggleSwitch::new(true).style(ToggleStyle::Relay);
    match t.plan(20_000, 8_000, None, 1000).shape {
        ToggleShape::Relay { arm_angle_millideg, .. } => {
            assert_eq!(arm_angle_millideg, 0);
        }
        _ => panic!("expected a relay shape"),
    }
}

#[test]
fn valve_plan_geometry() {
    let t = ToggleSwitch::new(false).style(ToggleStyle::Valve);
    let p = t.plan(20_000, 8_000, None, 0);
    assert_eq!(p.full, Size { x: 60_000, y: 60_000 });
    assert_eq!(p.margin, 8_000);
    assert!(!p.outline_full);
    assert!(p.outline_toggle);
    assert!(p.label_anchor_right);
    assert_eq!(p.label_x, 60_000);
    assert_eq!(p.label_y, 30_000);
    match p.shape {
        ToggleShape::Valve { radius, valve_size, top_y, spinner, cross } => {
            assert_eq!(valve_size, 44_000);
            assert_eq!(radius, 8_800);
            assert_eq!(top_y, 12_400);
            assert!(!spinner);
            assert!(cross);
        }
        _ => panic!("expected a valve shape"),
    }
}

#[test]
fn valve_spinner_only_during_transition() {
    let t = ToggleSwitch::new(true).style(ToggleStyle::Valve);
    let spinner_at = |t_anim: i64| -> bool {
        match t.plan(20_000, 8_000, None, t_anim).shape {
            ToggleShape::Valve { spinner, .. } => spinner,
            _ => panic!("expected a valve shape"),
        }
    };
    assert!(!spinner_at(0));
    assert!(spinner_at(1));
    assert!(spinner_at(999));
    assert!(!spinner_at(1000));
}

#[test]
fn valve_cross_only_when_off() {
    let on = ToggleSwitch::new(true).style(ToggleStyle::Valve).plan(20_000, 8_000, None, 1000);
    match on.shape {
        ToggleShape::Valve { cross, .. } => assert!(!cross),
        _ => panic!("expected a valve shape"),
    }
}

#[test]
fn label_widens_the_widget() {
    let t = ToggleSwitch::new(false).label(String::from("pump"));
    let p = t.plan(20_000, 8_000, Some(Size { x: 30_000, y: 10_000 }), 0);
    assert_eq!(p.full, Size { x: 78_000, y: 20_000 });
    assert_eq!(p.toggle_size, Size { x: 40_000, y: 20_000 });
    assert_eq!(p.label_x, 48_000);
}

#[test]
fn user_size_with_label_keeps_minimum_switch_width() {
    let t = ToggleSwitch::new(false).label(String::from("pump")).size(Size { x: 50_000, y: 20_000 });
    let p = t.plan(20_000, 8_000, Some(Size { x: 30_000, y: 10_000 }), 0);
    assert_eq!(p.full, Size { x: 50_000, y: 20_000 });
    assert_eq!(p.toggle_size, Size { x: 24_000, y: 20_000 });
}

#[test]
fn user_size_without_label_fills_the_widget() {
    let t = ToggleSwitch::new(false).size(Size { x: 70_000, y: 25_000 });
    let p = t.plan(20_000, 8_000, None, 0);
    assert_eq!(p.full, Size { x: 70_000, y: 25_000 });
    assert_eq!(p.toggle_size, Size { x: 70_000, y: 25_000 });
}
