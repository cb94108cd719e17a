//! Window lifecycle management for taskbar-embedded workspace switchers.
//!
//! The crate models the state that a per-monitor switcher widget must keep
//! consistent with a window manager's state feed: which taskbar belongs to
//! which monitor, where the embedded host window may sit inside the taskbar,
//! when hosts are created and destroyed as monitors come and go, and how
//! user-driven move/resize gestures are arbitrated against automatic sizing.
//!
//! All decision logic lives here, verified; the platform shell around it
//! (native window calls, the state feed, config files) only performs the
//! actions this crate decides on.

pub mod app;
pub mod config;
pub mod host;
pub mod komorebi;
pub mod registry;
pub mod taskbar;
pub mod utils;

pub use utils::Rect;
pub use utils::RECTExt;
