//! Discovery of the installed web browsers, and the launch requests that
//! open URLs in one of them.
//!
//! The operating system is reached by the caller: this library decides what
//! to ask it for and what its answers mean.
pub mod flags;
pub mod discovery;
pub mod launch;
pub mod browser;
pub mod font;

pub use browser::{get_app_name, get_app_url, get_browsers, Browser, Candidate};
pub use discovery::get_browsers_bundle_identifiers;
pub use flags::{LSLaunchFlags, LSRolesMask};
pub use font::{get_default_font_name, get_default_font_path, Font};
pub use launch::{launch_outcome, open, LaunchSpec, OSStatus, Openable};
