use ehmi::{Color, Gauge};

#[test]
fn gauge_defaults() {
    let g = Gauge::new(50_000);
    assert_eq!(g.value, 50_000);
    assert_eq!(g.min_value, 0);
    assert_eq!(g.max_value, 100_000);
    assert_eq!(g.size, 200_000);
    assert_eq!(g.min_angle, 0);
    assert_eq!(g.max_angle, 180);
    assert_eq!(g.stroke_width, 1_500);
    assert_eq!(g.arrow_length_factor, 800);
    assert_eq!(g.arrow_width, 3_000);
    assert_eq!(g.ticks, 9);
    assert_eq!(g.tick_size, 3_000);
    assert_eq!(g.pointer_radius, 3_000);
    assert!(g.text.is_none());
    assert!(g.bg_color.is_none());
    assert!(g.text_color.is_none());
    assert_eq!(g.fg_color, Color { r: 0, g: 255, b: 0, a: 255 });
}

#[test]
fn gauge_builders() {
    let g = Gauge::new(0)
        .range(-50_000, 50_000)
        .size(100_000)
        .angle_range(-90, 270)
        .stroke_width(2_000)
        .ticks(5)
        .fg_color(Color { r: 1, g: 2, b: 3, a: 255 })
        .bg_color(Color { r: 4, g: 5, b: 6, a: 255 })
        .text_color(Color { r: 7, g: 8, b: 9, a: 255 })
        .text(String::from("50 V"));
    assert_eq!(g.min_value, -50_000);
    assert_eq!(g.max_value, 50_000);
    assert_eq!(g.size, 100_000);
    assert_eq!(g.min_angle, -90);
    assert_eq!(g.max_angle, 270);
    assert_eq!(g.stroke_width, 2_000);
    assert_eq!(g.ticks, 5);
    assert_eq!(g.fg_color, Color { r: 1, g: 2, b: 3, a: 255 });
    assert_eq!(g.bg_color, Some(Color { r: 4, g: 5, b: 6, a: 255 }));
    assert_eq!(g.text_color, Some(Color { r: 7, g: 8, b: 9, a: 255 }));
    assert_eq!(g.text.as_deref(), Some("50 V"));
}

#[test]
fn gauge_angle_range_clamped_to_full_turn() {
    let g = Gauge::new(0).angle_range(-400, 400);
    assert_eq!(g.min_angle, -360);
    assert_eq!(g.max_angle, 360);
}

#[test]
fn gauge_pointer_radius_floor() {
    assert_eq!(Gauge::new(0).pointer_radius(500).pointer_radius, 1_000);
    assert_eq!(Gauge::new(0).pointer_radius(-5).pointer_radius, 1_000);
    assert_eq!(Gauge::new(0).pointer_radius(4_000).pointer_radius, 4_000);
}

#[test]
fn gauge_arrow_length_factor_clamped() {
    assert_eq!(Gauge::new(0).arrow_length_factor(2_000).arrow_length_factor, 1_300);
    assert_eq!(Gauge::new(0).arrow_length_factor(-1).arrow_length_factor, 0);
    assert_eq!(Gauge::new(0).arrow_length_factor(450).arrow_length_factor, 450);
}

#[test]
fn value_to_angle_endpoints_and_middle() {
    let g = Gauge::new(0);
    assert_eq!(g.value_to_angle(0), 180);
    assert_eq!(g.value_to_angle(50_000), 90);
    assert_eq!(g.value_to_angle(100_000), 0);
    assert_eq!(g.value_to_angle(25_000), 135);
}

#[test]
fn value_to_angle_truncates_toward_zero() {
    let g = Gauge::new(0);
    assert_eq!(g.value_to_angle(100), 179);
    assert_eq!(g.value_to_angle(99_900), 0);
    let g = Gauge::new(0).angle_range(-90, 90);
    assert_eq!(g.value_to_angle(100), 89);
    assert_eq!(g.value_to_angle(99_900), -89);
}

#[test]
fn value_to_angle_monotonic_samples() {
    let g = Gauge::new(0);
    let mut last = i16::MAX;
    let mut v: i64 = 0;
    while v <= 100_000 {
        let a = g.value_to_angle(v);
        assert!(a <= last);
        last = a;
        v += 2_500;
    }
}

#[test]
fn gauge_plan_geometry() {
    let p = Gauge::new(50_000).plan();
    assert_eq!(p.padding, 20_000);
    assert_eq!(p.radius, 80_000);
    assert_eq!(p.current_angle, 90);
    assert_eq!(p.marker_radius, 79_250);
    assert!(p.arrow);
    assert!(!p.end_markers);
    assert_eq!(p.arrow_length, 64_000);
    assert_eq!(p.center_radius, 2_400);
    assert_eq!(p.tick_inner_radius, 77_000);
    assert_eq!(p.tick_outer_radius, 83_000);
    assert_eq!(p.tick_label_radius, 96_000);
    assert_eq!(p.tick_font_size, 10_666);
    assert_eq!(p.text_font_size, 17_777);
}

#[test]
fn gauge_plan_clamps_value() {
    let p = Gauge::new(250_000).plan();
    assert_eq!(p.current_angle, 0);
    let p = Gauge::new(-250_000).plan();
    assert_eq!(p.current_angle, 180);
}

#[test]
fn gauge_plan_tick_values() {
    let p = Gauge::new(0).plan();
    assert_eq!(p.ticks.len(), 9);
    for (i, tick) in p.ticks.iter().enumerate() {
        assert_eq!(tick.value, i as i64 * 12_500);
    }
    assert_eq!(p.ticks[0].angle, 180);
    assert_eq!(p.ticks[1].angle, 157);
    assert_eq!(p.ticks[4].angle, 90);
    assert_eq!(p.ticks[8].angle, 0);
}

#[test]
fn few_ticks_suppress_tick_rendering() {
    assert_eq!(Gauge::new(0).ticks(0).plan().ticks.len(), 0);
    assert_eq!(Gauge::new(0).ticks(1).plan().ticks.len(), 0);
    assert_eq!(Gauge::new(0).ticks(2).plan().ticks.len(), 2);
}

#[test]
fn full_turn_drops_last_tick() {
    let p = Gauge::new(0).angle_range(0, 360).plan();
    assert_eq!(p.ticks.len(), 8);
    let p = Gauge::new(0).angle_range(-360, 360).ticks(4).plan();
    assert_eq!(p.ticks.len(), 3);
}

#[test]
fn gauge_arcs_span_the_sweep() {
    let p = Gauge::new(50_000).plan();
    assert_eq!(p.bg_arc.len(), 31);
    assert_eq!(p.bg_arc[0], 0);
    assert_eq!(p.bg_arc[1], 6);
    assert_eq!(p.bg_arc[30], 180);
    assert_eq!(p.fg_arc.len(), 31);
    assert_eq!(p.fg_arc[0], 90);
    assert_eq!(p.fg_arc[1], 93);
    assert_eq!(p.fg_arc[30], 180);
}

#[test]
fn gauge_arc_empty_when_value_at_maximum() {
    let p = Gauge::new(100_000).plan();
    assert_eq!(p.current_angle, 0);
    assert_eq!(p.fg_arc.len(), 31);
    let p = Gauge::new(100_000).angle_range(90, 90).plan();
    assert_eq!(p.bg_arc.len(), 0);
    assert_eq!(p.fg_arc.len(), 0);
}

#[test]
fn gauge_arc_includes_uneven_end() {
    let p = Gauge::new(0).angle_range(0, 100).plan();
    assert_eq!(p.bg_arc.len(), 35);
    assert_eq!(p.bg_arc[0], 0);
    assert_eq!(p.bg_arc[33], 99);
    assert_eq!(p.bg_arc[34], 100);
}

#[test]
fn short_arrow_factor_switches_to_end_markers() {
    let p = Gauge::new(0).arrow_length_factor(50).plan();
    assert!(p.end_markers);
    assert!(!p.arrow);
    let p = Gauge::new(0).arrow_length_factor(100).plan();
    assert!(!p.end_markers);
    assert!(p.arrow);
}
