//! Startup configuration of the application window and GL context.
use vstd::prelude::*;

verus! {

/// Window title and size, and the GL version to ask for. Read once at
/// startup.
pub struct AppConfig {
    pub window_title: String,
    pub window_width: u32,
    pub window_height: u32,
    pub gl_version_major: u8,
    pub gl_version_minor: u8,
}

/// The configuration a program starts with when it sets none: an 800 by 600
/// window titled "paxil" and a GL 4.1 context.
pub open spec fn is_default_config(c: AppConfig) -> bool {
    &&& c.window_title@ == "paxil"@
    &&& c.window_width == 800
    &&& c.window_height == 600
    &&& c.gl_version_major == 4
    &&& c.gl_version_minor == 1
}

impl Default for AppConfig {
    fn default() -> (r: AppConfig)
        ensures
            is_default_config(r),
    {
        AppConfig {
            window_title: String::from_str("paxil"),
            window_width: 800,
            window_height: 600,
            gl_version_major: 4,
            gl_version_minor: 1,
        }
    }
}

impl AppConfig {
    /// The default configuration.
    pub fn new() -> (r: AppConfig)
        ensures
            is_default_config(r),
    {
        AppConfig::default()
    }
}

} // verus!
