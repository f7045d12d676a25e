//! Windowing and pane index model for a multi-pane browser chrome.
//!
//! The library keeps an ordered registry of windows, each holding an ordered
//! collection of content panes plus two single-line text bars (an address bar
//! and a command bar). Every public operation addresses its target by index
//! and re-resolves that index at call time, so a stale index is always a
//! silent no-op or a documented default value, never an error.

pub mod chrome;
pub mod laws;
pub mod pane;
pub mod registry;
pub mod scan;
pub mod window;

pub use chrome::CocoaWindowSubview;
pub use pane::FilterOutcome;
pub use pane::Pane;
pub use registry::WindowRegistry;
pub use window::Window;
