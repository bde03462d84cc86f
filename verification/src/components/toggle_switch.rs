//! A multi-style toggle switch bound to a boolean: a sliding button, a relay
//! diagram or a valve diagram, with an animated transition.
//!
//! All lengths are milli-units relative to the rectangle the widget
//! occupies, with the origin at its top-left corner. Animation progress is
//! in thousandths: `0` fully off, `1000` fully on.

use vstd::prelude::*;

use crate::colors::{
    gray, spec_gray, spec_success_color, spec_warn_color, spec_white, success_color, warn_color,
    Color,
};
use crate::geom::{div_trunc, lerp_milli, spec_div_trunc, spec_lerp_milli, Size, DIM_MAX};

verus! {

/// The visual style of a toggle switch.
#[derive(Clone, Copy, Debug, PartialEq, Eq, Structural)]
pub enum ToggleStyle {
    /// Sliding button.
    Button,
    /// Relay switch.
    Relay,
    /// Valve switch.
    Valve,
}

/// Toggle switch configuration.
pub struct ToggleSwitch {
    /// The bound boolean state.
    pub on: bool,
    /// Label drawn next to the switch.
    pub label: Option<String>,
    /// Accent color of the switch.
    pub color: Color,
    /// The visual style.
    pub style: ToggleStyle,
    /// A caller-chosen size for the widget; the style's default when absent.
    pub size: Option<Size>,
    /// Font size of the label, in milli-units.
    pub font_size: i64,
}

impl ToggleSwitch {
    /// All dimensions lie within machine-safe fixed-point bounds.
    pub open spec fn wf(self) -> bool {
        &&& 0 <= self.font_size <= DIM_MAX
        &&& match self.size {
            Option::Some(s) => 0 <= s.x <= DIM_MAX && 0 <= s.y <= DIM_MAX,
            Option::None => true,
        }
    }

    /// Create a new toggle switch bound to `on`, drawn as a sliding button.
    pub fn new(on: bool) -> (t: ToggleSwitch)
        ensures
            t == (ToggleSwitch {
                on,
                label: Option::<String>::None,
                color: spec_white(),
                style: ToggleStyle::Button,
                size: Option::<Size>::None,
                font_size: 14_000i64,
            }),
            t.wf(),
    {
        ToggleSwitch {
            on,
            label: None,
            color: Color::white(),
            style: ToggleStyle::Button,
            size: None,
            font_size: 14_000,
        }
    }

    /// Set the label of the toggle switch.
    pub fn label(self, label: String) -> (t: ToggleSwitch)
        ensures
            t == (ToggleSwitch { label: Option::Some(label), ..self }),
    {
        ToggleSwitch { label: Some(label), ..self }
    }

    /// Set the accent color of the toggle switch.
    pub fn color(self, color: Color) -> (t: ToggleSwitch)
        ensures
            t == (ToggleSwitch { color, ..self }),
    {
        ToggleSwitch { color, ..self }
    }

    /// Set the visual style of the toggle switch.
    pub fn style(self, style: ToggleStyle) -> (t: ToggleSwitch)
        ensures
            t == (ToggleSwitch { style, ..self }),
    {
        ToggleSwitch { style, ..self }
    }

    /// Set the size of the toggle switch.
    pub fn size(self, size: Size) -> (t: ToggleSwitch)
        requires
            0 <= size.x <= DIM_MAX,
            0 <= size.y <= DIM_MAX,
        ensures
            t == (ToggleSwitch { size: Option::Some(size), ..self }),
    {
        ToggleSwitch { size: Some(size), ..self }
    }

    /// Set the font size of the label.
    pub fn font_size(self, size: i64) -> (t: ToggleSwitch)
        requires
            0 <= size <= DIM_MAX,
        ensures
            t == (ToggleSwitch { font_size: size, ..self }),
    {
        ToggleSwitch { font_size: size, ..self }
    }

    /// Apply one completed interaction: a click flips the bound state
    /// exactly once, anything else leaves it unchanged. Returns whether the
    /// state changed.
    pub fn interact(&mut self, clicked: bool) -> (changed: bool)
        ensures
            final(self).on == (if clicked {
                !old(self).on
            } else {
                old(self).on
            }),
            *final(self) == (ToggleSwitch { on: final(self).on, ..*old(self) }),
            changed == clicked,
    {
        if clicked {
            self.on = !self.on;
        }
        clicked
    }

    /// Width of the style's default switch, given the host's interaction
    /// height `h`: two heights for a button, three otherwise.
    pub open spec fn spec_default_w(self, h: int) -> int {
        match self.style {
            ToggleStyle::Button => 2 * h,
            ToggleStyle::Relay => 3 * h,
            ToggleStyle::Valve => 3 * h,
        }
    }

    /// Height of the style's default switch, given the host's interaction
    /// height `h`: one height for a button, one and a half for a relay,
    /// three for a valve.
    pub open spec fn spec_default_h(self, h: int) -> int {
        match self.style {
            ToggleStyle::Button => h,
            ToggleStyle::Relay => 3 * h / 2,
            ToggleStyle::Valve => 3 * h,
        }
    }

    /// Width of the whole widget: the caller's size if one was given, else
    /// the default switch plus the measured label and its spacing.
    pub open spec fn spec_full_w(self, h: int, spacing: int, ls: Option<Size>) -> int {
        match self.size {
            Option::Some(s) => s.x as int,
            Option::None => match ls {
                Option::Some(l) => self.spec_default_w(h) + spacing + l.x,
                Option::None => self.spec_default_w(h),
            },
        }
    }

    /// Height of the whole widget: the caller's size if one was given, else
    /// the taller of the default switch and the measured label.
    pub open spec fn spec_full_h(self, h: int, ls: Option<Size>) -> int {
        match self.size {
            Option::Some(s) => s.y as int,
            Option::None => match ls {
                Option::Some(l) => if self.spec_default_h(h) >= l.y {
                    self.spec_default_h(h)
                } else {
                    l.y as int
                },
                Option::None => self.spec_default_h(h),
            },
        }
    }

    /// Width of the switch itself: with a caller size and a label, what the
    /// label leaves over, at least six tenths of the default width; the full
    /// width with a caller size alone; the default width otherwise.
    pub open spec fn spec_toggle_w(self, h: int, spacing: int, ls: Option<Size>) -> int {
        if self.size is Some && ls is Some {
            let avail = self.spec_full_w(h, spacing, ls) - spacing - (ls->0).x;
            let floor_w = self.spec_default_w(h) * 600 / 1000;
            if avail >= floor_w {
                avail
            } else {
                floor_w
            }
        } else if self.size is Some {
            self.spec_full_w(h, spacing, ls)
        } else {
            self.spec_default_w(h)
        }
    }

    /// Height of the switch itself: the full height with a caller size, the
    /// default height otherwise.
    pub open spec fn spec_toggle_h(self, h: int, ls: Option<Size>) -> int {
        if self.size is Some {
            self.spec_full_h(h, ls)
        } else {
            self.spec_default_h(h)
        }
    }

    /// The margin kept inside the switch rectangle: none for a button, the
    /// host's item spacing otherwise.
    pub open spec fn spec_margin(self, spacing: int) -> int {
        match self.style {
            ToggleStyle::Button => 0,
            ToggleStyle::Relay => spacing,
            ToggleStyle::Valve => spacing,
        }
    }

    /// Lay the toggle switch out. `interact_height` is the host's standard
    /// interaction height, `spacing` its item spacing, `label_size` the
    /// measured size of the label if one is set, and `t` the animation
    /// progress in thousandths (`0` fully off, `1000` fully on).
    #[verifier::rlimit(60)]
    pub fn plan(&self, interact_height: i64, spacing: i64, label_size: Option<Size>, t: i64) -> (p:
        TogglePlan)
        requires
            self.wf(),
            0 <= interact_height <= DIM_MAX,
            0 <= spacing <= DIM_MAX,
            label_size is Some <==> self.label is Some,
            label_size matches Option::Some(l) ==> 0 <= l.x <= DIM_MAX && 0 <= l.y <= DIM_MAX,
            0 <= t <= 1000,
        ensures
            p.full.x == self.spec_full_w(interact_height as int, spacing as int, label_size),
            p.full.y == self.spec_full_h(interact_height as int, label_size),
            p.toggle_size.x == self.spec_toggle_w(interact_height as int, spacing as int, label_size),
            p.toggle_size.y == self.spec_toggle_h(interact_height as int, label_size),
            p.margin == self.spec_margin(spacing as int),
            p.toggle_x0 == p.margin && p.toggle_y0 == p.margin,
            p.toggle_x1 == p.toggle_size.x - p.margin,
            p.toggle_y1 == p.toggle_size.y - p.margin,
            p.outline_full == (self.style is Relay),
            p.outline_toggle == (self.style is Valve),
            p.stroke_color == (if self.on {
                spec_success_color()
            } else {
                spec_warn_color()
            }),
            p.label_anchor_right == (self.style is Valve),
            p.label_x == (if self.style is Valve {
                p.full.x as int
            } else {
                p.toggle_x1 + spacing
            }),
            p.label_y == (if self.style is Valve {
                p.full.y / 2
            } else {
                p.toggle_size.y / 2
            }),
            self.style is Button ==> (p.shape matches ToggleShape::Button {
                radius,
                fill,
                knob_x,
                knob_radius,
            } && radius == p.toggle_size.y / 2 && fill == (if self.on {
                spec_success_color()
            } else {
                spec_gray()
            }) && knob_x == spec_lerp_milli(radius as int, p.toggle_size.x - radius, t as int)
                && knob_radius == radius * 750 / 1000),
            self.style is Relay ==> (p.shape matches ToggleShape::Relay {
                circle_radius,
                node_left,
                node_right,
                arm_angle_millideg,
                arm_length,
            } && circle_radius == spec_div_trunc((p.toggle_x1 - p.toggle_x0) * 4, 100) && node_left
                == p.toggle_x0 + spec_div_trunc(p.toggle_x1 - p.toggle_x0, 3) && node_right
                == p.toggle_x1 - spec_div_trunc(p.toggle_x1 - p.toggle_x0, 3) && arm_angle_millideg
                == 45 * (1000 - t) && arm_length == (if node_right - node_left >= 0 {
                node_right - node_left
            } else {
                -(node_right - node_left)
            })),
            self.style is Valve ==> (p.shape matches ToggleShape::Valve {
                radius,
                valve_size,
                top_y,
                spinner,
                cross,
            } && valve_size == (if p.toggle_x1 - p.toggle_x0 <= p.toggle_y1 - p.toggle_y0 {
                p.toggle_x1 - p.toggle_x0
            } else {
                p.toggle_y1 - p.toggle_y0
            }) && radius == spec_div_trunc(valve_size as int, 5) && top_y == p.toggle_size.y / 2 - 2
                * radius && spinner == (0 < t < 1000) && cross == !self.on),
    {
        let h = interact_height;
        let dts_x: i64 = match self.style {
            ToggleStyle::Button => 2 * h,
            ToggleStyle::Relay => 3 * h,
            ToggleStyle::Valve => 3 * h,
        };
        let dts_y: i64 = match self.style {
            ToggleStyle::Button => h,
            ToggleStyle::Relay => 3 * h / 2,
            ToggleStyle::Valve => 3 * h,
        };
        let (full_x, full_y): (i64, i64) = match (&self.size, &label_size) {
            (Option::Some(s), _) => (s.x, s.y),
            (Option::None, Option::Some(l)) => (
                dts_x + spacing + l.x,
                if dts_y >= l.y {
                    dts_y
                } else {
                    l.y
                },
            ),
            (Option::None, Option::None) => (dts_x, dts_y),
        };
        let (tog_x, tog_y): (i64, i64) = match (&self.size, &label_size) {
            (Option::Some(_), Option::Some(l)) => {
                let avail: i64 = full_x - spacing - l.x;
                let floor_w: i64 = dts_x * 600 / 1000;
                (
                    if avail >= floor_w {
                        avail
                    } else {
                        floor_w
                    },
                    full_y,
                )
            },
            (Option::Some(_), Option::None) => (full_x, full_y),
            (Option::None, _) => (dts_x, dts_y),
        };
        let margin: i64 = match self.style {
            ToggleStyle::Button => 0,
            ToggleStyle::Relay => spacing,
            ToggleStyle::Valve => spacing,
        };
        let x0 = margin;
        let y0 = margin;
        let x1 = tog_x - margin;
        let y1 = tog_y - margin;
        let stroke_color = if self.on {
            success_color()
        } else {
            warn_color()
        };
        let shape: ToggleShape = match self.style {
            ToggleStyle::Button => {
                let radius: i64 = tog_y / 2;
                let knob_x = lerp_milli(radius, tog_x - radius, t);
                ToggleShape::Button {
                    radius,
                    fill: if self.on {
                        success_color()
                    } else {
                        gray()
                    },
                    knob_x,
                    knob_radius: radius * 750 / 1000,
                }
            },
            ToggleStyle::Relay => {
                let w: i64 = x1 - x0;
                let third = div_trunc(w, 3);
                let node_left = x0 + third;
                let node_right = x1 - third;
                let d: i64 = node_right - node_left;
                ToggleShape::Relay {
                    circle_radius: div_trunc(w * 4, 100),
                    node_left,
                    node_right,
                    arm_angle_millideg: 45 * (1000 - t),
                    arm_length: if d >= 0 {
                        d
                    } else {
                        -d
                    },
                }
            },
            ToggleStyle::Valve => {
                let w: i64 = x1 - x0;
                let hh: i64 = y1 - y0;
                let m: i64 = if w <= hh {
                    w
                } else {
                    hh
                };
                let radius = div_trunc(m, 5);
                ToggleShape::Valve {
                    radius,
                    valve_size: m,
                    top_y: tog_y / 2 - 2 * radius,
                    spinner: 0 < t && t < 1000,
                    cross: !self.on,
                }
            },
        };
        let is_valve = match self.style {
            ToggleStyle::Valve => true,
            _ => false,
        };
        TogglePlan {
            full: Size { x: full_x, y: full_y },
            toggle_size: Size { x: tog_x, y: tog_y },
            margin,
            toggle_x0: x0,
            toggle_y0: y0,
            toggle_x1: x1,
            toggle_y1: y1,
            outline_full: match self.style {
                ToggleStyle::Relay => true,
                _ => false,
            },
            outline_toggle: is_valve,
            stroke_color,
            shape,
            label_anchor_right: is_valve,
            label_x: if is_valve {
                full_x
            } else {
                x1 + spacing
            },
            label_y: if is_valve {
                full_y / 2
            } else {
                tog_y / 2
            },
        }
    }
}

/// The style-specific part of a toggle switch layout.
pub enum ToggleShape {
    /// A sliding button: a rounded track with a knob gliding between its
    /// ends.
    Button {
        /// Corner radius of the track: half its height.
        radius: i64,
        /// Fill color of the track.
        fill: Color,
        /// Horizontal center of the knob at the current animation time.
        knob_x: i64,
        /// Radius of the knob.
        knob_radius: i64,
    },
    /// A relay diagram: two leads, two contact circles and a swinging arm.
    Relay {
        /// Radius of the contact circles.
        circle_radius: i64,
        /// Horizontal position of the left contact.
        node_left: i64,
        /// Horizontal position of the right contact.
        node_right: i64,
        /// Angle of the arm above the closed position, in millidegrees.
        arm_angle_millideg: i64,
        /// Length of the arm.
        arm_length: i64,
    },
    /// A valve diagram: a bow-tie body, a stem and a state circle.
    Valve {
        /// Radius of the state circle.
        radius: i64,
        /// Side length of the bow-tie body.
        valve_size: i64,
        /// Vertical position of the stem's crossbar.
        top_y: i64,
        /// Whether the in-transition spinner is shown.
        spinner: bool,
        /// Whether the "closed" cross stroke is drawn.
        cross: bool,
    },
}

/// The computed layout of a toggle switch, in milli-units relative to the
/// rectangle the widget occupies, origin at its top-left corner.
pub struct TogglePlan {
    /// Size of the whole widget.
    pub full: Size,
    /// Size of the switch rectangle, anchored at the origin.
    pub toggle_size: Size,
    /// Margin kept inside the switch rectangle.
    pub margin: i64,
    /// Left edge of the switch after the margin.
    pub toggle_x0: i64,
    /// Top edge of the switch after the margin.
    pub toggle_y0: i64,
    /// Right edge of the switch after the margin.
    pub toggle_x1: i64,
    /// Bottom edge of the switch after the margin.
    pub toggle_y1: i64,
    /// Whether the full widget rectangle gets an outline (relay style).
    pub outline_full: bool,
    /// Whether the switch rectangle gets an outline (valve style).
    pub outline_toggle: bool,
    /// Stroke color of the outlines and diagram strokes.
    pub stroke_color: Color,
    /// The style-specific part of the layout.
    pub shape: ToggleShape,
    /// Whether the label is anchored at the widget's right edge (valve
    /// style) instead of left of the point after the switch.
    pub label_anchor_right: bool,
    /// Horizontal anchor of the label.
    pub label_x: i64,
    /// Vertical anchor of the label.
    pub label_y: i64,
}

} // verus!
