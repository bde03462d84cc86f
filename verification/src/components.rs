//! The widget components: bar, gauge and toggle switch.

mod bar;
mod gauge;
mod toggle_switch;

pub use bar::Bar;
pub use bar::BarPlan;
pub use bar::VerticalBarPlan;
pub use bar::BAR_COLUMN_HEIGHT;
pub use bar::BAR_LABEL_MARGIN;
pub use bar::BAR_TRACK_WIDTH;
pub use bar::BAR_VALUE_OFFSET;

pub use gauge::angle_scaled;
pub use gauge::arc_angles;
pub use gauge::arc_points;
pub use gauge::arc_step;
pub use gauge::lemma_angle_map_injective;
pub use gauge::lemma_angle_map_inverse;
pub use gauge::lemma_angle_map_monotonic;
pub use gauge::lemma_gauge_angle_antitone;
pub use gauge::Gauge;
pub use gauge::GaugePlan;
pub use gauge::Tick;
pub use toggle_switch::TogglePlan;
pub use toggle_switch::ToggleShape;
pub use toggle_switch::ToggleStyle;
pub use toggle_switch::ToggleSwitch;
