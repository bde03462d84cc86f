//! A linear bar showing a value within a range: a horizontal progress bar
//! with range labels on either side, or a vertical thermometer-style bar
//! with the range labels above and below. All lengths are milli-units
//! relative to the rectangle the widget occupies, origin at its top-left
//! corner.

use vstd::prelude::*;

use crate::colors::{spec_success_color, success_color, Color};
use crate::geom::{clamp_i64, DIM_MAX, TICKS_MAX, VAL_MAX};

verus! {

/// Height of the vertical bar's column.
pub const BAR_COLUMN_HEIGHT: i64 = 240_000;

/// Horizontal gap between the vertical bar's column and its value text.
pub const BAR_VALUE_OFFSET: i64 = 16_000;

/// Gap between the vertical bar's column and its range labels.
pub const BAR_LABEL_MARGIN: i64 = 4_000;

/// Width of the horizontal bar's track.
pub const BAR_TRACK_WIDTH: i64 = 180_000;

/// Linear bar configuration.
pub struct Bar {
    /// Text drawn next to the bar.
    pub text: String,
    /// The value to display, in milli-units.
    pub value: i64,
    /// Font size of the value text, in milli-units.
    pub font_size: i64,
    /// Font size of the range labels, in milli-units.
    pub label_size: i64,
    /// Thickness of the bar (width when vertical, height when horizontal).
    pub bar_size: i64,
    /// Fill color of the bar.
    pub fg_color: Color,
    /// Lower end of the value range.
    pub min: i64,
    /// Upper end of the value range.
    pub max: i64,
    /// Width reserved for the value text of a vertical bar; absent for a
    /// horizontal bar.
    pub vertical: Option<i64>,
    /// Number of tick marks; fewer than two disables them.
    pub ticks: usize,
}

impl Bar {
    /// All dimensions lie within machine-safe fixed-point bounds.
    pub open spec fn wf(self) -> bool {
        &&& 0 <= self.font_size <= DIM_MAX
        &&& 0 <= self.label_size <= DIM_MAX
        &&& 0 <= self.bar_size <= DIM_MAX
        &&& -VAL_MAX <= self.value <= VAL_MAX
        &&& -VAL_MAX <= self.min <= VAL_MAX
        &&& -VAL_MAX <= self.max <= VAL_MAX
        &&& self.ticks <= TICKS_MAX
        &&& match self.vertical {
            Option::Some(w) => 0 <= w <= DIM_MAX,
            Option::None => true,
        }
    }

    /// Create a new horizontal bar showing `value` over a 0 to 100 unit
    /// range.
    pub fn new(value: i64) -> (b: Bar)
        requires
            -VAL_MAX <= value <= VAL_MAX,
        ensures
            b.text@.len() == 0,
            b.value == value,
            b.font_size == 16_000,
            b.label_size == 10_000,
            b.bar_size == 5_000,
            b.fg_color == spec_success_color(),
            b.min == 0,
            b.max == 100_000,
            b.vertical is None,
            b.ticks == 0,
            b.wf(),
    {
        Bar {
            text: String::new(),
            value,
            font_size: 16_000,
            label_size: 10_000,
            bar_size: 5_000,
            fg_color: success_color(),
            min: 0,
            max: 100_000,
            vertical: None,
            ticks: 0,
        }
    }

    /// Set the value range of the bar.
    pub fn range(self, min: i64, max: i64) -> (b: Bar)
        requires
            -VAL_MAX <= min <= VAL_MAX,
            -VAL_MAX <= max <= VAL_MAX,
        ensures
            b == (Bar { min, max, ..self }),
    {
        Bar { min, max, ..self }
    }

    /// Make the bar vertical, reserving `max_width` for its value text.
    pub fn vertical(self, max_width: i64) -> (b: Bar)
        requires
            0 <= max_width <= DIM_MAX,
        ensures
            b == (Bar { vertical: Option::Some(max_width), ..self }),
    {
        Bar { vertical: Some(max_width), ..self }
    }

    /// Set the text drawn next to the bar.
    pub fn text(self, text: String) -> (b: Bar)
        ensures
            b == (Bar { text, ..self }),
    {
        Bar { text, ..self }
    }

    /// Set the font size of the value text.
    pub fn font_size(self, font_size: i64) -> (b: Bar)
        requires
            0 <= font_size <= DIM_MAX,
        ensures
            b == (Bar { font_size, ..self }),
    {
        Bar { font_size, ..self }
    }

    /// Set the font size of the range labels.
    pub fn label_size(self, font_size: i64) -> (b: Bar)
        requires
            0 <= font_size <= DIM_MAX,
        ensures
            b == (Bar { label_size: font_size, ..self }),
    {
        Bar { label_size: font_size, ..self }
    }

    /// Set the thickness of the bar (width when vertical, height when
    /// horizontal).
    pub fn bar_size(self, size: i64) -> (b: Bar)
        requires
            0 <= size <= DIM_MAX,
        ensures
            b == (Bar { bar_size: size, ..self }),
    {
        Bar { bar_size: size, ..self }
    }

    /// Set the fill color of the bar.
    pub fn fg_color(self, color: Color) -> (b: Bar)
        ensures
            b == (Bar { fg_color: color, ..self }),
    {
        Bar { fg_color: color, ..self }
    }

    /// Set the number of tick marks; fewer than two disables them (the
    /// default is zero).
    pub fn ticks(self, n: usize) -> (b: Bar)
        requires
            n <= TICKS_MAX,
        ensures
            b == (Bar { ticks: n, ..self }),
    {
        Bar { ticks: n, ..self }
    }

    /// The value shown, clamped into the value range.
    pub open spec fn spec_clamped_value(self) -> int {
        if self.value < self.min {
            self.min as int
        } else if self.value > self.max {
            self.max as int
        } else {
            self.value as int
        }
    }

    /// Lay a vertical bar out: a fixed-height column filled from the bottom
    /// in proportion to the value, range labels above and below, the value
    /// text to the right, and evenly spaced tick marks across the column
    /// when two or more are asked for.
    pub fn vertical_plan(&self) -> (p: VerticalBarPlan)
        requires
            self.wf(),
            self.vertical is Some,
            self.min < self.max,
        ensures
            p.total_width == self.bar_size + BAR_VALUE_OFFSET + self.vertical->0,
            p.total_height == BAR_COLUMN_HEIGHT + 2 * (BAR_LABEL_MARGIN + self.label_size),
            p.bar_top == self.label_size + BAR_LABEL_MARGIN,
            p.bar_width == self.bar_size,
            p.bar_height == BAR_COLUMN_HEIGHT,
            p.fill_height == BAR_COLUMN_HEIGHT * (self.spec_clamped_value() - self.min) / (self.max
                - self.min),
            0 <= p.fill_height <= BAR_COLUMN_HEIGHT,
            p.center_x == self.bar_size / 2,
            p.max_label_y == p.bar_top - BAR_LABEL_MARGIN,
            p.min_label_y == p.bar_top + BAR_COLUMN_HEIGHT + BAR_LABEL_MARGIN,
            p.value_text_x == self.bar_size + BAR_VALUE_OFFSET,
            p.value_text_y == p.bar_top + BAR_COLUMN_HEIGHT / 2,
            p.tick_half_span == self.bar_size / 2 + 2_000,
            p.tick_ys@.len() == (if self.ticks >= 2 {
                self.ticks as int
            } else {
                0int
            }),
            forall|j: int|
                0 <= j < p.tick_ys@.len() ==> p.tick_ys@[j] == p.bar_top + BAR_COLUMN_HEIGHT * (j
                    + 1) / (self.ticks + 1),
    {
        let vertical_size: i64 = match self.vertical {
            Option::Some(w) => w,
            Option::None => 0,
        };
        let value = clamp_i64(self.value, self.min, self.max);
        let bar_top: i64 = self.label_size + BAR_LABEL_MARGIN;
        let dv: i64 = self.max - self.min;
        proof {
            assert(0 <= BAR_COLUMN_HEIGHT * (value - self.min) <= 240_000
                * 2_000_000_000_000int) by (nonlinear_arith)
                requires
                    0 <= value - self.min <= 2_000_000_000_000int,
            ;
            assert(BAR_COLUMN_HEIGHT * (value - self.min) <= dv * BAR_COLUMN_HEIGHT)
                by (nonlinear_arith)
                requires
                    0 <= value - self.min <= dv,
            ;
        }
        let num: i64 = BAR_COLUMN_HEIGHT * (value - self.min);
        proof {
            vstd::arithmetic::div_mod::lemma_div_pos_is_pos(num as int, dv as int);
            vstd::arithmetic::div_mod::lemma_multiply_divide_le(
                num as int,
                dv as int,
                BAR_COLUMN_HEIGHT as int,
            );
        }
        let fill_height: i64 = num / dv;
        let mut tick_ys: Vec<i64> = Vec::new();
        let n: usize = if self.ticks >= 2 {
            self.ticks
        } else {
            0
        };
        let mut i: usize = 0;
        while i < n
            invariant
                n <= TICKS_MAX,
                i <= n,
                bar_top == self.label_size + BAR_LABEL_MARGIN,
                0 <= bar_top <= 2_000_000_000,
                tick_ys@.len() == i,
                n == (if self.ticks >= 2 {
                    self.ticks as int
                } else {
                    0int
                }),
                forall|j: int|
                    0 <= j < i ==> tick_ys@[j] == bar_top + BAR_COLUMN_HEIGHT * (j + 1) / (
                    self.ticks + 1),
            decreases n - i,
        {
            let den: i64 = (self.ticks + 1) as i64;
            let y: i64 = bar_top + BAR_COLUMN_HEIGHT * ((i + 1) as i64) / den;
            proof {
                vstd::arithmetic::div_mod::lemma_div_pos_is_pos(
                    BAR_COLUMN_HEIGHT * ((i + 1) as int),
                    den as int,
                );
            }
            tick_ys.push(y);
            i = i + 1;
        }
        VerticalBarPlan {
            total_width: self.bar_size + BAR_VALUE_OFFSET + vertical_size,
            total_height: BAR_COLUMN_HEIGHT + 2 * (BAR_LABEL_MARGIN + self.label_size),
            bar_top,
            bar_width: self.bar_size,
            bar_height: BAR_COLUMN_HEIGHT,
            fill_height,
            center_x: self.bar_size / 2,
            max_label_y: bar_top - BAR_LABEL_MARGIN,
            min_label_y: bar_top + BAR_COLUMN_HEIGHT + BAR_LABEL_MARGIN,
            value_text_x: self.bar_size + BAR_VALUE_OFFSET,
            value_text_y: bar_top + BAR_COLUMN_HEIGHT / 2,
            tick_half_span: self.bar_size / 2 + 2_000,
            tick_ys,
        }
    }

    /// Lay a horizontal bar out: the measured range labels flank a
    /// fixed-width track filled in proportion to the value, with the value
    /// text centered underneath and evenly spaced tick marks across the
    /// track when two or more are asked for. The label widths are measured
    /// by the host and passed in.
    pub fn plan(&self, min_label_width: i64, max_label_width: i64, text_width: i64) -> (p: BarPlan)
        requires
            self.wf(),
            self.min < self.max,
            0 <= min_label_width <= DIM_MAX,
            0 <= max_label_width <= DIM_MAX,
            0 <= text_width <= DIM_MAX,
        ensures
            p.line_height == (if self.bar_size >= self.label_size {
                self.bar_size as int
            } else {
                self.label_size as int
            }),
            p.label_offset == (p.line_height - self.label_size) / 2,
            p.total_width == min_label_width + BAR_TRACK_WIDTH + max_label_width,
            p.total_height == p.line_height * 2 + self.font_size,
            p.text_offset == (if p.total_width - text_width >= 0 {
                p.total_width - text_width
            } else {
                0int
            }) / 2,
            p.bar_width == BAR_TRACK_WIDTH,
            p.fill_fraction == (self.spec_clamped_value() - self.min) * 1000 / (self.max
                - self.min),
            0 <= p.fill_fraction <= 1000,
            p.tick_fractions@.len() == (if self.ticks >= 2 {
                self.ticks as int
            } else {
                0int
            }),
            forall|j: int|
                0 <= j < p.tick_fractions@.len() ==> p.tick_fractions@[j] == 1000 * (j + 1) / (
                self.ticks + 1),
    {
        let line_height: i64 = if self.bar_size >= self.label_size {
            self.bar_size
        } else {
            self.label_size
        };
        let total_width: i64 = min_label_width + BAR_TRACK_WIDTH + max_label_width;
        let over: i64 = if total_width - text_width >= 0 {
            total_width - text_width
        } else {
            0
        };
        let value = clamp_i64(self.value, self.min, self.max);
        let dv: i64 = self.max - self.min;
        proof {
            assert(0 <= (value - self.min) * 1000 <= 2_000_000_000_000_000int) by (nonlinear_arith)
                requires
                    0 <= value - self.min <= 2_000_000_000_000int,
            ;
            assert((value - self.min) * 1000 <= dv * 1000) by (nonlinear_arith)
                requires
                    0 <= value - self.min <= dv,
            ;
        }
        let num: i64 = (value - self.min) * 1000;
        proof {
            vstd::arithmetic::div_mod::lemma_div_pos_is_pos(num as int, dv as int);
            vstd::arithmetic::div_mod::lemma_multiply_divide_le(num as int, dv as int, 1000);
        }
        let fill_fraction: i64 = num / dv;
        let mut tick_fractions: Vec<i64> = Vec::new();
        let n: usize = if self.ticks >= 2 {
            self.ticks
        } else {
            0
        };
        let mut i: usize = 0;
        while i < n
            invariant
                n <= TICKS_MAX,
                i <= n,
                tick_fractions@.len() == i,
                n == (if self.ticks >= 2 {
                    self.ticks as int
                } else {
                    0int
                }),
                forall|j: int|
                    0 <= j < i ==> tick_fractions@[j] == 1000 * (j + 1) / (self.ticks + 1),
            decreases n - i,
        {
            let den: i64 = (self.ticks + 1) as i64;
            let f: i64 = 1000 * ((i + 1) as i64) / den;
            tick_fractions.push(f);
            i = i + 1;
        }
        BarPlan {
            line_height,
            label_offset: (line_height - self.label_size) / 2,
            total_width,
            total_height: line_height * 2 + self.font_size,
            text_offset: over / 2,
            bar_width: BAR_TRACK_WIDTH,
            fill_fraction,
            tick_fractions,
        }
    }
}

/// The computed layout of a vertical bar, in milli-units relative to the
/// rectangle the widget occupies.
pub struct VerticalBarPlan {
    /// Width the widget asks the host for.
    pub total_width: i64,
    /// Height the widget asks the host for.
    pub total_height: i64,
    /// Vertical position of the top of the column.
    pub bar_top: i64,
    /// Width of the column.
    pub bar_width: i64,
    /// Height of the column.
    pub bar_height: i64,
    /// Height of the filled part, measured up from the column's bottom.
    pub fill_height: i64,
    /// Horizontal center of the column.
    pub center_x: i64,
    /// Baseline anchor of the range maximum label, above the column.
    pub max_label_y: i64,
    /// Top anchor of the range minimum label, below the column.
    pub min_label_y: i64,
    /// Left anchor of the value text.
    pub value_text_x: i64,
    /// Vertical center of the value text.
    pub value_text_y: i64,
    /// Half the length of a tick mark.
    pub tick_half_span: i64,
    /// Vertical positions of the tick marks, topmost first.
    pub tick_ys: Vec<i64>,
}

/// The computed layout of a horizontal bar, in milli-units.
pub struct BarPlan {
    /// Height of the label-and-track line.
    pub line_height: i64,
    /// Vertical offset centering a range label within the line.
    pub label_offset: i64,
    /// Width the widget asks the host for.
    pub total_width: i64,
    /// Height the widget asks the host for.
    pub total_height: i64,
    /// Horizontal offset centering the value text under the track.
    pub text_offset: i64,
    /// Width of the track.
    pub bar_width: i64,
    /// Filled share of the track, in thousandths.
    pub fill_fraction: i64,
    /// Positions of the tick marks as thousandths of the track width,
    /// leftmost first.
    pub tick_fractions: Vec<i64>,
}

} // verus!
