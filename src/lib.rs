//! Window placement and screenshot capture logic for a tiling compositor.

pub mod capture;
pub mod codec;
pub mod controller;
pub mod placement;
pub mod selector;
pub mod terminal;

pub use codec::{Geometry, ParseGeometryError};
pub use controller::{BORDER, GAP_BOTTOM, GAP_LEFT, GAP_RIGHT, GAP_TOP};
pub use controller::{
    WmCommand, float_gaps, fullscreen_command, needs_cursor, to_i16_saturating,
    toggle_float_commands,
};
pub use placement::{Insets, MonitorMetrics, Point, anchored_placement, centered_placement};
pub use selector::{CaptureMode, WindowFrame, candidate_text, display_geometry, interpret_selection};
pub use capture::{
    Capture, CaptureAction, CaptureError, EDIT_ACTION, OPEN_ACTION, OVERRIDE_COUNT, OpenTarget, Outcome,
    Phase, SHOW_ACTION, Submap, VisualOverride, notification_target, override_at_index,
};
pub use terminal::{TERMINAL_CLASS, directory_start, terminal_directory};
