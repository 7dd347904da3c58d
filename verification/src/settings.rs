//! What the user set.

use vstd::prelude::*;

verus! {

/// The step of a scroll where nothing was stored, in percent.
pub const DEFAULT_SCROLL_STEP: u8 = 2;

/// The settings that outlast a run.
#[derive(Debug, Clone, Copy, PartialEq, Eq, Structural)]
pub struct AppSettings {
    /// How far one scroll moves a level, in percent.
    pub scroll_step: u8,
}

impl Default for AppSettings {
    fn default() -> (r: AppSettings)
        ensures
            r == (AppSettings { scroll_step: 2 }),
    {
        AppSettings { scroll_step: DEFAULT_SCROLL_STEP }
    }
}

impl AppSettings {
    /// The settings to run with: those that were stored, and the defaults
    /// where nothing was stored or what was stored could not be read.
    pub fn load(stored: Option<AppSettings>) -> (r: AppSettings)
        ensures
            r == match stored {
                Some(settings) => settings,
                None => AppSettings { scroll_step: 2 },
            },
    {
        match stored {
            Some(settings) => settings,
            None => AppSettings::default(),
        }
    }
}

} // verus!
