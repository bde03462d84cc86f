//! Custom-drawn instrument widgets: a linear bar, a radial gauge and a
//! multi-style toggle switch. The widgets are configured with builder calls
//! and compute their geometry as plain fixed-point data (milli-units), which
//! a host renderer turns into draw calls.

mod colors;
mod components;
mod geom;

pub use colors::get_text_color;
pub use colors::gray;
pub use colors::gray_dark;
pub use colors::spec_black;
pub use colors::spec_gray;
pub use colors::spec_gray_dark;
pub use colors::spec_success_color;
pub use colors::spec_warn_color;
pub use colors::spec_white;
pub use colors::success_color;
pub use colors::warn_color;
pub use colors::Color;
pub use components::angle_scaled;
pub use components::arc_angles;
pub use components::arc_points;
pub use components::arc_step;
pub use components::lemma_angle_map_injective;
pub use components::lemma_angle_map_inverse;
pub use components::lemma_angle_map_monotonic;
pub use components::lemma_gauge_angle_antitone;
pub use components::Bar;
pub use components::BarPlan;
pub use components::Gauge;
pub use components::GaugePlan;
pub use components::Tick;
pub use components::TogglePlan;
pub use components::ToggleShape;
pub use components::ToggleStyle;
pub use components::ToggleSwitch;
pub use components::VerticalBarPlan;
pub use components::BAR_COLUMN_HEIGHT;
pub use components::BAR_LABEL_MARGIN;
pub use components::BAR_TRACK_WIDTH;
pub use components::BAR_VALUE_OFFSET;
pub use geom::clamp_i16;
pub use geom::clamp_i64;
pub use geom::div_trunc;
pub use geom::lemma_div_trunc_bounds;
pub use geom::lemma_div_trunc_ordered;
pub use geom::lerp_milli;
pub use geom::spec_div_trunc;
pub use geom::spec_lerp_milli;
pub use geom::Size;
pub use geom::DIM_MAX;
pub use geom::TICKS_MAX;
pub use geom::VAL_MAX;
