//! A small windowed GUI toolkit: an error taxonomy that folds the graphics
//! backend's many error types into one, a widget hierarchy of tabs holding
//! buttons, and the per-frame state machine that turns input events into a
//! run flag and a redraw plan.
//!
//! The library never touches the window, the event queue or the canvas
//! itself. A front end polls the backend's events, hands them to
//! [`Toolkit::tick`], and carries out the returned [`Frame`] step by step,
//! reporting each step's outcome back so that the frame stops at the first
//! failure.

mod error;
mod frame;
mod laws;
mod toolkit;
mod widget;

pub use error::{
    FontFailure, IntegerOrBackendFailure, TextInitFailure, TextureFailure, ToolkitError,
    WindowBuildFailure,
};
pub use widget::{buttons_plan, Button, ButtonType, Color, Drawable, FrameAction, Tab, Widget};
pub use frame::{Frame, FrameView};
pub use toolkit::{items_plan, run_after, stops, tab_plan, InputEvent, Key, Toolkit, ToolkitView};
pub use laws::{
    alpha_decides_clear_color, empty_frame_clears_and_presents, escape_stops, failure_stops_frame,
    frame_without_failure_reports_run_flag, item_steps_in_order, other_key_keeps_run_flag,
    quiet_events_keep_running, quit_stops, tabs_keep_order,
};
