//! Application configuration.

use vstd::prelude::*;
use crate::logger::LogLevel;
use crate::window::WindowConfig;

verus! {

/// How often the application loop runs an update.
#[derive(Clone, Copy, Debug, PartialEq, Eq, Structural)]
pub enum UpdateCap {
    Cap(u32),
    Vsync,
    Unlimited,
}

/// Everything the application driver needs to start.
#[derive(Clone, Copy, Debug)]
pub struct AppConfiguration<'a> {
    pub update_cap: UpdateCap,
    pub log_level: LogLevel,
    pub window_config: WindowConfig<'a>,
}

impl<'a> Default for AppConfiguration<'a> {
    fn default() -> (r: AppConfiguration<'a>)
        ensures
            r.update_cap == UpdateCap::Vsync,
            r.log_level == LogLevel::Info,
            r.window_config.width == 800,
            r.window_config.height == 600,
    {
        AppConfiguration {
            update_cap: UpdateCap::Vsync,
            log_level: LogLevel::Info,
            window_config: WindowConfig::default(),
        }
    }
}

} // verus!
