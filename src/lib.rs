//! The decision logic of the Midday desktop shell: where the quick-search
//! overlay is placed, how it moves between absent, hidden and visible, how
//! deep links are routed into the main window, and which navigations leave
//! the hosted web view.
//!
//! Every function here takes plain values observed from the windowing
//! platform and returns plain values (positions, action lists, paths); the
//! program that owns the windows performs what they say.

mod deep_link;
mod desktop_model;
mod environment;
mod geometry;
mod links;
mod overlay;
mod text;

pub use text::{starts_with, text_equals};
pub use overlay::{dismiss_plan, exit_plan, show_main_plan, Action, OverlayController, OverlayState};
pub use geometry::{
    center_on_monitor, locate_monitor, monitor_contains, place_overlay, Monitor, Placement, Point,
    Size, DEFAULT_OVERLAY_HEIGHT, DEFAULT_OVERLAY_WIDTH, VERTICAL_OFFSET,
};
pub use deep_link::{deep_link_path, route_deep_links};
pub use links::{is_external_parts, is_external_url, same_host, HostName, UrlParts};
pub use environment::{app_url_for, Environment};
pub use desktop_model::SimulatedDesktop;
