//! A radial gauge: an arc spanning a configurable angle range, filled up to
//! the current value, with optional tick marks, pointer arrow and centered
//! text.
//!
//! Angles are whole degrees (`i16`), measured counter-clockwise from the
//! positive x axis as the host renderer draws them. Values and lengths are
//! milli-units (see the crate root). Growing values sweep from the maximal
//! angle down to the minimal one.

use vstd::prelude::*;

use crate::colors::{spec_success_color, success_color, Color};
use crate::geom::{clamp_i16, clamp_i64, div_trunc, spec_div_trunc, DIM_MAX, TICKS_MAX, VAL_MAX};

verus! {

/// Radial gauge configuration.
pub struct Gauge {
    /// The value to display, in milli-units.
    pub value: i64,
    /// Lower end of the value range.
    pub min_value: i64,
    /// Upper end of the value range.
    pub max_value: i64,
    /// Side length of the square the widget occupies, in milli-units.
    pub size: i64,
    /// Angle where the sweep of growing values ends, in degrees.
    pub min_angle: i16,
    /// Angle where the sweep of growing values starts, in degrees.
    pub max_angle: i16,
    /// Stroke width of the arc, in milli-units.
    pub stroke_width: i64,
    /// Text drawn at the center of the gauge.
    pub text: Option<String>,
    /// Color of the unfilled part of the arc; the host theme's background
    /// when absent.
    pub bg_color: Option<Color>,
    /// Color of the filled part of the arc.
    pub fg_color: Color,
    /// Color of the tick labels and center text; a theme-derived default
    /// when absent.
    pub text_color: Option<Color>,
    /// Length of the pointer arrow as thousandths of the radius; below a
    /// tenth the arrow is replaced by end point markers.
    pub arrow_length_factor: i64,
    /// Stroke width of the pointer arrow, in milli-units.
    pub arrow_width: i64,
    /// Number of labelled tick marks; fewer than two disables them.
    pub ticks: usize,
    /// Half-length of a tick mark, in milli-units.
    pub tick_size: i64,
    /// Radius of the end point markers, in milli-units.
    pub pointer_radius: i64,
}

impl Gauge {
    /// All dimensions lie within machine-safe fixed-point bounds.
    pub open spec fn wf(self) -> bool {
        &&& 0 <= self.size <= DIM_MAX
        &&& 0 <= self.stroke_width <= DIM_MAX
        &&& 0 <= self.arrow_width <= DIM_MAX
        &&& 0 <= self.tick_size <= DIM_MAX
        &&& 0 <= self.pointer_radius <= DIM_MAX
        &&& 0 <= self.arrow_length_factor <= 1300
        &&& -360 <= self.min_angle <= 360
        &&& -360 <= self.max_angle <= 360
        &&& -VAL_MAX <= self.min_value <= VAL_MAX
        &&& -VAL_MAX <= self.max_value <= VAL_MAX
        &&& -VAL_MAX <= self.value <= VAL_MAX
        &&& self.ticks <= TICKS_MAX
    }

    /// Create a new gauge showing `value`, with a 0 to 100 unit range over a
    /// half circle.
    pub fn new(value: i64) -> (g: Gauge)
        requires
            -VAL_MAX <= value <= VAL_MAX,
        ensures
            g == (Gauge {
                value,
                min_value: 0i64,
                max_value: 100_000i64,
                size: 200_000i64,
                min_angle: 0i16,
                max_angle: 180i16,
                stroke_width: 1_500i64,
                text: Option::<String>::None,
                bg_color: Option::<Color>::None,
                fg_color: spec_success_color(),
                text_color: Option::<Color>::None,
                arrow_length_factor: 800i64,
                arrow_width: 3_000i64,
                ticks: 9usize,
                tick_size: 3_000i64,
                pointer_radius: 3_000i64,
            }),
            g.wf(),
    {
        Gauge {
            value,
            min_value: 0,
            max_value: 100_000,
            size: 200_000,
            min_angle: 0,
            max_angle: 180,
            stroke_width: 1_500,
            text: None,
            bg_color: None,
            fg_color: success_color(),
            text_color: None,
            arrow_length_factor: 800,
            arrow_width: 3_000,
            ticks: 9,
            tick_size: 3_000,
            pointer_radius: 3_000,
        }
    }

    /// Set the value range of the gauge.
    pub fn range(self, min_value: i64, max_value: i64) -> (g: Gauge)
        requires
            -VAL_MAX <= min_value <= VAL_MAX,
            -VAL_MAX <= max_value <= VAL_MAX,
        ensures
            g == (Gauge { min_value, max_value, ..self }),
    {
        Gauge { min_value, max_value, ..self }
    }

    /// Set the side length of the gauge widget.
    pub fn size(self, size: i64) -> (g: Gauge)
        requires
            0 <= size <= DIM_MAX,
        ensures
            g == (Gauge { size, ..self }),
    {
        Gauge { size, ..self }
    }

    /// Set the angle range of the gauge (how long the curve is and its
    /// direction); each end is clamped to a full turn.
    pub fn angle_range(self, start: i16, end: i16) -> (g: Gauge)
        ensures
            g == (Gauge {
                min_angle: (if start < -360 {
                    -360i16
                } else if start > 360 {
                    360i16
                } else {
                    start
                }),
                max_angle: (if end < -360 {
                    -360i16
                } else if end > 360 {
                    360i16
                } else {
                    end
                }),
                ..self
            }),
    {
        let min_angle = clamp_i16(start, -360, 360);
        let max_angle = clamp_i16(end, -360, 360);
        Gauge { min_angle, max_angle, ..self }
    }

    /// Set the text drawn at the center of the gauge.
    pub fn text(self, text: String) -> (g: Gauge)
        ensures
            g == (Gauge { text: Option::Some(text), ..self }),
    {
        Gauge { text: Some(text), ..self }
    }

    /// Set the background color of the gauge arc.
    pub fn bg_color(self, color: Color) -> (g: Gauge)
        ensures
            g == (Gauge { bg_color: Option::Some(color), ..self }),
    {
        Gauge { bg_color: Some(color), ..self }
    }

    /// Set the foreground color of the gauge arc.
    pub fn fg_color(self, color: Color) -> (g: Gauge)
        ensures
            g == (Gauge { fg_color: color, ..self }),
    {
        Gauge { fg_color: color, ..self }
    }

    /// Set the color of the tick labels and center text.
    pub fn text_color(self, color: Color) -> (g: Gauge)
        ensures
            g == (Gauge { text_color: Option::Some(color), ..self }),
    {
        Gauge { text_color: Some(color), ..self }
    }

    /// Set the number of tick marks; a number below two disables them.
    pub fn ticks(self, n: usize) -> (g: Gauge)
        requires
            n <= TICKS_MAX,
        ensures
            g == (Gauge { ticks: n, ..self }),
    {
        Gauge { ticks: n, ..self }
    }

    /// Set the end point marker radius, at least one unit.
    pub fn pointer_radius(self, size: i64) -> (g: Gauge)
        requires
            size <= DIM_MAX,
        ensures
            g == (Gauge {
                pointer_radius: (if size < 1000 {
                    1000i64
                } else {
                    size
                }),
                ..self
            }),
    {
        let pointer_radius: i64 = if size < 1000 {
            1000
        } else {
            size
        };
        Gauge { pointer_radius, ..self }
    }

    /// Set the stroke width of the gauge arc.
    pub fn stroke_width(self, stroke_width: i64) -> (g: Gauge)
        requires
            0 <= stroke_width <= DIM_MAX,
        ensures
            g == (Gauge { stroke_width, ..self }),
    {
        Gauge { stroke_width, ..self }
    }

    /// Set the arrow length as thousandths of the radius, clamped to
    /// `[0, 1300]`; below a tenth the arrow is not drawn.
    pub fn arrow_length_factor(self, factor: i64) -> (g: Gauge)
        ensures
            g == (Gauge {
                arrow_length_factor: (if factor < 0 {
                    0i64
                } else if factor > 1300 {
                    1300i64
                } else {
                    factor
                }),
                ..self
            }),
    {
        let arrow_length_factor = clamp_i64(factor, 0, 1300);
        Gauge { arrow_length_factor, ..self }
    }

    /// The width left for the dial once the tick label clearance on either
    /// side is taken off.
    pub open spec fn spec_gauge_width(self) -> int {
        self.size - 2 * (self.size / 10)
    }

    /// The clearance kept around the dial for the tick labels.
    pub open spec fn spec_text_clearance(self) -> int {
        self.size / 10
    }

    /// The radius of the dial.
    pub open spec fn spec_radius(self) -> int {
        self.spec_gauge_width() / 2
    }

    /// The angle at which `v` is drawn: the sweep starts at `max_angle` and
    /// covers the angle span in proportion to `v`'s place in the value
    /// range; the exact angle is rounded toward zero to a whole degree.
    pub open spec fn angle_of(self, v: int) -> int {
        spec_div_trunc(
            angle_scaled(
                v,
                self.min_value as int,
                self.max_value as int,
                self.min_angle as int,
                self.max_angle as int,
            ),
            self.max_value - self.min_value,
        )
    }

    /// The whole-degree angle at which value `v` is drawn.
    pub fn value_to_angle(&self, v: i64) -> (a: i16)
        requires
            self.wf(),
            self.min_value < self.max_value,
            self.min_angle <= self.max_angle,
            self.min_value <= v <= self.max_value,
        ensures
            a as int == self.angle_of(v as int),
            self.min_angle <= a <= self.max_angle,
    {
        let dv: i64 = self.max_value - self.min_value;
        let da: i64 = (self.max_angle as i64) - (self.min_angle as i64);
        proof {
            assert(0 <= (v - self.min_value) * da <= 2_000_000_000_000int * 720) by (nonlinear_arith)
                requires
                    0 <= v - self.min_value <= 2_000_000_000_000int,
                    0 <= da <= 720,
            ;
            assert(-720_000_000_000_000int <= (self.max_angle as int) * dv
                <= 720_000_000_000_000int) by (nonlinear_arith)
                requires
                    -360 <= self.max_angle <= 360,
                    0 < dv <= 2_000_000_000_000int,
            ;
        }
        let num: i64 = (v - self.min_value) * da;
        let scaled: i64 = (self.max_angle as i64) * dv - num;
        proof {
            assert(num <= dv * da) by (nonlinear_arith)
                requires
                    0 <= v - self.min_value <= dv,
                    0 <= da,
                    num == (v - self.min_value) * da,
            ;
            assert((self.max_angle as int) * dv - dv * da == (self.min_angle as int) * dv)
                by (nonlinear_arith)
                requires
                    da == self.max_angle - self.min_angle,
            ;
            crate::geom::lemma_div_trunc_bounds(
                scaled as int,
                dv as int,
                self.min_angle as int,
                self.max_angle as int,
            );
        }
        let q: i64 = div_trunc(scaled, dv);
        q as i16
    }

    /// The value labelling tick `i`: the value range split into `ticks - 1`
    /// even steps.
    pub fn tick_value(&self, i: usize) -> (tv: i64)
        requires
            self.wf(),
            self.min_value < self.max_value,
            2 <= self.ticks,
            i < self.ticks,
        ensures
            tv == self.min_value + (self.max_value - self.min_value) * i / (self.ticks - 1),
            self.min_value <= tv <= self.max_value,
    {
        let span: i64 = self.max_value - self.min_value;
        proof {
            assert(0 <= span * i <= 2_000_000_000_000int * 10_000) by (nonlinear_arith)
                requires
                    0 <= span <= 2_000_000_000_000int,
                    0 <= i <= 10_000,
            ;
        }
        let num: i64 = span * (i as i64);
        let den: i64 = (self.ticks - 1) as i64;
        proof {
            vstd::arithmetic::div_mod::lemma_div_pos_is_pos(num as int, den as int);
            assert(num <= den * span) by (nonlinear_arith)
                requires
                    0 <= span,
                    0 <= i <= den,
                    num == span * i,
            ;
            vstd::arithmetic::div_mod::lemma_multiply_divide_le(num as int, den as int, span as int);
        }
        let q: i64 = num / den;
        self.min_value + q
    }

    /// The value shown, clamped into the value range.
    pub open spec fn spec_clamped_value(self) -> int {
        if self.value < self.min_value {
            self.min_value as int
        } else if self.value > self.max_value {
            self.max_value as int
        } else {
            self.value as int
        }
    }

    /// Lay the gauge out: clamp the value, sample the background and filled
    /// arcs, place the tick marks and the pointer. The plan is in
    /// milli-units relative to the widget's square, with directions given as
    /// whole-degree angles.
    pub fn plan(&self) -> (p: GaugePlan)
        requires
            self.wf(),
            self.min_value < self.max_value,
            self.min_angle <= self.max_angle,
        ensures
            p.padding == self.spec_text_clearance(),
            p.radius == self.spec_radius(),
            p.current_angle as int == self.angle_of(self.spec_clamped_value()),
            self.min_angle <= p.current_angle <= self.max_angle,
            p.bg_arc@.len() == arc_angles(self.min_angle as int, self.max_angle as int).len(),
            forall|i: int|
                0 <= i < p.bg_arc@.len() ==> p.bg_arc@[i] as int == arc_angles(
                    self.min_angle as int,
                    self.max_angle as int,
                )[i],
            p.fg_arc@.len() == arc_angles(p.current_angle as int, self.max_angle as int).len(),
            forall|i: int|
                0 <= i < p.fg_arc@.len() ==> p.fg_arc@[i] as int == arc_angles(
                    p.current_angle as int,
                    self.max_angle as int,
                )[i],
            p.end_markers == (self.arrow_length_factor < 100),
            p.arrow == (self.arrow_length_factor >= 100),
            p.marker_radius == self.spec_radius() - self.stroke_width / 2,
            p.arrow_length == self.spec_radius() * self.arrow_length_factor / 1000,
            p.center_radius == self.pointer_radius * 800 / 1000,
            self.ticks < 2 ==> p.ticks@.len() == 0,
            self.ticks >= 2 ==> p.ticks@.len() == (if self.max_angle - self.min_angle >= 360 {
                self.ticks - 1
            } else {
                self.ticks as int
            }),
            forall|i: int|
                0 <= i < p.ticks@.len() ==> (#[trigger] p.ticks@[i]).value == self.min_value + (
                self.max_value - self.min_value) * i / (self.ticks - 1) && p.ticks@[i].angle as int
                    == self.angle_of(p.ticks@[i].value as int),
            p.tick_inner_radius == self.spec_radius() - self.tick_size,
            p.tick_outer_radius == self.spec_radius() + self.tick_size,
            p.tick_label_radius == self.spec_radius() + self.spec_gauge_width() / 10,
            p.tick_font_size == self.spec_gauge_width() / 15,
            p.text_font_size == self.spec_gauge_width() / 9,
    {
        let value = clamp_i64(self.value, self.min_value, self.max_value);
        let current_angle = self.value_to_angle(value);
        let padding = self.size / 10;
        proof {
            vstd::arithmetic::div_mod::lemma_div_pos_is_pos(self.size as int, 10);
            vstd::arithmetic::div_mod::lemma_fundamental_div_mod(self.size as int, 10);
            vstd::arithmetic::div_mod::lemma_div_nonincreasing(self.size as int, 10);
        }
        let gauge_width = self.size - 2 * padding;
        let radius = gauge_width / 2;
        proof {
            vstd::arithmetic::div_mod::lemma_div_pos_is_pos(gauge_width as int, 2);
            vstd::arithmetic::div_mod::lemma_div_nonincreasing(gauge_width as int, 2);
            assert(0 <= radius * self.arrow_length_factor <= 1_300_000_000_000int)
                by (nonlinear_arith)
                requires
                    0 <= radius <= 1_000_000_000int,
                    0 <= self.arrow_length_factor <= 1300,
            ;
        }
        let bg_arc = arc_points(self.min_angle, self.max_angle);
        let fg_arc = arc_points(current_angle, self.max_angle);
        let end_markers = self.arrow_length_factor < 100;
        let arrow = self.arrow_length_factor >= 100;
        let marker_radius = radius - self.stroke_width / 2;
        let arrow_length = radius * self.arrow_length_factor / 1000;
        let center_radius = self.pointer_radius * 800 / 1000;
        let mut ticks: Vec<Tick> = Vec::new();
        if self.ticks >= 2 {
            let wrap: bool = (self.max_angle - self.min_angle) >= 360;
            let n: usize = if wrap {
                self.ticks - 1
            } else {
                self.ticks
            };
            let mut i: usize = 0;
            while i < n
                invariant
                    self.wf(),
                    self.min_value < self.max_value,
                    self.min_angle <= self.max_angle,
                    2 <= self.ticks,
                    n <= self.ticks,
                    i <= n,
                    ticks@.len() == i,
                    forall|j: int|
                        0 <= j < i ==> (#[trigger] ticks@[j]).value == self.min_value + (
                        self.max_value - self.min_value) * j / (self.ticks - 1)
                            && ticks@[j].angle as int == self.angle_of(ticks@[j].value as int),
                decreases n - i,
            {
                let tv = self.tick_value(i);
                let a = self.value_to_angle(tv);
                ticks.push(Tick { value: tv, angle: a });
                i = i + 1;
            }
        }
        GaugePlan {
            padding,
            radius,
            current_angle,
            bg_arc,
            fg_arc,
            end_markers,
            marker_radius,
            ticks,
            tick_inner_radius: radius - self.tick_size,
            tick_outer_radius: radius + self.tick_size,
            tick_label_radius: radius + gauge_width / 10,
            tick_font_size: gauge_width / 15,
            arrow,
            arrow_length,
            center_radius,
            text_font_size: gauge_width / 9,
        }
    }
}

/// A tick mark of the gauge: the value it stands for and the whole-degree
/// angle at which it is drawn.
#[derive(Clone, Copy, Debug, PartialEq, Eq, Structural)]
pub struct Tick {
    /// The value the tick labels, in milli-units.
    pub value: i64,
    /// The angle at which the tick is drawn, in degrees.
    pub angle: i16,
}

/// The computed layout of a gauge, in milli-units relative to the square the
/// widget occupies; directions are whole-degree angles around the center of
/// the dial.
pub struct GaugePlan {
    /// Clearance kept around the dial for the tick labels.
    pub padding: i64,
    /// Radius of the dial.
    pub radius: i64,
    /// Angle at which the clamped value is drawn.
    pub current_angle: i16,
    /// Sampled angles of the full background arc.
    pub bg_arc: Vec<i16>,
    /// Sampled angles of the filled arc, from the current angle to the start
    /// of the sweep.
    pub fg_arc: Vec<i16>,
    /// Whether the two end point markers are drawn in place of the arrow.
    pub end_markers: bool,
    /// Radius at which the end point markers sit.
    pub marker_radius: i64,
    /// The tick marks, lowest value first.
    pub ticks: Vec<Tick>,
    /// Radius at which a tick mark starts.
    pub tick_inner_radius: i64,
    /// Radius at which a tick mark ends.
    pub tick_outer_radius: i64,
    /// Radius at which a tick label is centered.
    pub tick_label_radius: i64,
    /// Font size of the tick labels.
    pub tick_font_size: i64,
    /// Whether the pointer arrow is drawn.
    pub arrow: bool,
    /// Length of the pointer arrow.
    pub arrow_length: i64,
    /// Radius of the filled circle at the center of the dial.
    pub center_radius: i64,
    /// Font size of the centered text.
    pub text_font_size: i64,
}

/// The exact value-to-angle map, scaled by the width of the value range so
/// that it stays in whole numbers: `angle_scaled(v, ...) / (max_v - min_v)`
/// is the exact, unrounded angle at which `v` is drawn.
pub open spec fn angle_scaled(v: int, min_v: int, max_v: int, min_a: int, max_a: int) -> int {
    max_a * (max_v - min_v) - (v - min_v) * (max_a - min_a)
}

/// The value-to-angle map is monotonic: over a non-degenerate value range
/// and a forward angle range, a larger value is never drawn at a larger
/// angle (the sweep runs from the maximal angle down).
pub proof fn lemma_angle_map_monotonic(v1: int, v2: int, min_v: int, max_v: int, min_a: int, max_a: int)
    requires
        min_v < max_v,
        min_a <= max_a,
        v1 <= v2,
    ensures
        angle_scaled(v1, min_v, max_v, min_a, max_a) >= angle_scaled(v2, min_v, max_v, min_a, max_a),
{
    vstd::arithmetic::mul::lemma_mul_inequality(v1 - min_v, v2 - min_v, max_a - min_a);
}

/// The value-to-angle map is injective: over a non-degenerate value range
/// and a non-degenerate angle range, distinct values are drawn at distinct
/// exact angles.
pub proof fn lemma_angle_map_injective(v1: int, v2: int, min_v: int, max_v: int, min_a: int, max_a: int)
    requires
        min_v < max_v,
        min_a < max_a,
        v1 != v2,
    ensures
        angle_scaled(v1, min_v, max_v, min_a, max_a) != angle_scaled(v2, min_v, max_v, min_a, max_a),
{
    assert((v1 - min_v) * (max_a - min_a) != (v2 - min_v) * (max_a - min_a)) by (nonlinear_arith)
        requires
            v1 != v2,
            min_a < max_a,
    ;
}

/// The value-to-angle map is invertible: over non-degenerate value and
/// angle ranges, the value is recovered exactly from its scaled angle.
pub proof fn lemma_angle_map_inverse(v: int, min_v: int, max_v: int, min_a: int, max_a: int)
    requires
        min_v < max_v,
        min_a < max_a,
    ensures
        v == min_v + (max_a * (max_v - min_v) - angle_scaled(v, min_v, max_v, min_a, max_a)) / (
        max_a - min_a),
{
    let da = max_a - min_a;
    assert(max_a * (max_v - min_v) - angle_scaled(v, min_v, max_v, min_a, max_a) == da * (v
        - min_v)) by {
        assert((v - min_v) * da == da * (v - min_v)) by (nonlinear_arith);
    }
    vstd::arithmetic::div_mod::lemma_div_multiples_vanish(v - min_v, da);
}

/// Rounding to whole degrees keeps the map monotonic: a larger value is
/// never drawn at a larger whole-degree angle.
pub proof fn lemma_gauge_angle_antitone(g: Gauge, v1: int, v2: int)
    requires
        g.min_value < g.max_value,
        g.min_angle <= g.max_angle,
        v1 <= v2,
    ensures
        g.angle_of(v1) >= g.angle_of(v2),
{
    let dv = g.max_value - g.min_value;
    lemma_angle_map_monotonic(
        v1,
        v2,
        g.min_value as int,
        g.max_value as int,
        g.min_angle as int,
        g.max_angle as int,
    );
    crate::geom::lemma_div_trunc_ordered(
        angle_scaled(
            v2,
            g.min_value as int,
            g.max_value as int,
            g.min_angle as int,
            g.max_angle as int,
        ),
        angle_scaled(
            v1,
            g.min_value as int,
            g.max_value as int,
            g.min_angle as int,
            g.max_angle as int,
        ),
        dv,
    );
}

/// The whole-degree step between consecutive points on an arc from `start`
/// to `end`: a thirtieth of the sweep, at least one degree.
pub open spec fn arc_step(start: int, end: int) -> int {
    if (end - start) / 30 >= 1 {
        (end - start) / 30
    } else {
        1
    }
}

/// The angles at which an arc from `start` to `end` is sampled: every
/// `arc_step` degrees from `start` while within the sweep, with `end` as the
/// last point. An empty sweep has no points.
pub open spec fn arc_angles(start: int, end: int) -> Seq<int> {
    if start >= end {
        Seq::<int>::empty()
    } else {
        let step = arc_step(start, end);
        let n = (end - start) / step + 1;
        let ramp = Seq::<int>::new(n as nat, |i: int| start + i * step);
        if start + (n - 1) * step == end {
            ramp
        } else {
            ramp.push(end)
        }
    }
}

/// The angles at which an arc from `start` to `end` is sampled for drawing.
pub fn arc_points(start: i16, end: i16) -> (r: Vec<i16>)
    requires
        -360 <= start <= 360,
        -360 <= end <= 360,
    ensures
        r@.len() == arc_angles(start as int, end as int).len(),
        forall|i: int|
            0 <= i < r@.len() ==> r@[i] as int == arc_angles(start as int, end as int)[i],
        start < end ==> r@.len() >= 2 && r@[0] == start && r@[r@.len() - 1] == end,
{
    let mut pts: Vec<i16> = Vec::new();
    if start >= end {
        return pts;
    }
    let diff: i16 = end - start;
    let step0: i16 = diff / 30;
    let step: i16 = if step0 >= 1 {
        step0
    } else {
        1
    };
    proof {
        vstd::arithmetic::div_mod::lemma_div_pos_is_pos(diff as int, 30);
        vstd::arithmetic::div_mod::lemma_div_is_ordered(diff as int, 720, 30);
        vstd::arithmetic::div_mod::lemma_fundamental_div_mod_converse_div(720, 30, 24, 0);
        vstd::arithmetic::div_mod::lemma_div_nonincreasing(diff as int, 30);
        assert(step == arc_step(start as int, end as int));
        assert(1 <= step <= 24);
        assert(step <= diff);
    }
    let ghost n: int = (end - start) / (step as int) + 1;
    proof {
        vstd::arithmetic::div_mod::lemma_div_is_ordered(step as int, diff as int, step as int);
        vstd::arithmetic::div_mod::lemma_div_by_self(step as int);
        assert(n >= 2);
    }
    let mut angle: i16 = start;
    while angle <= end
        invariant
            1 <= step <= 24,
            -360 <= start < end <= 360,
            step == arc_step(start as int, end as int),
            angle == start + pts@.len() * step,
            start <= angle <= end + step,
            pts@.len() > 0 ==> start + (pts@.len() - 1) * step <= end,
            forall|j: int| 0 <= j < pts@.len() ==> pts@[j] as int == start + j * (step as int),
        decreases end + step - angle,
    {
        pts.push(angle);
        proof {
            assert(pts@.len() * step == (pts@.len() - 1) * step + step) by (nonlinear_arith);
        }
        angle = angle + step;
    }
    proof {
        let k = pts@.len() as int;
        assert(k >= 1);
        assert(start + (k - 1) * step <= end);
        assert(end < start + k * step);
        assert((k - 1) * (step as int) == k * (step as int) - step) by (nonlinear_arith);
        vstd::arithmetic::div_mod::lemma_fundamental_div_mod_converse_div(
            end - start,
            step as int,
            k - 1,
            end - start - (k - 1) * (step as int),
        );
        assert(k == n);
    }
    if angle - step < end {
        pts.push(end);
        proof {
            let s = arc_angles(start as int, end as int);
            assert(start + (n - 1) * (step as int) != end);
            assert(s.len() == n + 1);
            assert(forall|i: int| 0 <= i < n ==> s[i] == start + i * (step as int));
            assert(s[n as int] == end);
        }
    } else {
        proof {
            let s = arc_angles(start as int, end as int);
            assert(start + (n - 1) * (step as int) == end);
            assert(s.len() == n);
            assert(forall|i: int| 0 <= i < n ==> s[i] == start + i * (step as int));
        }
    }
    pts
}

} // verus!
