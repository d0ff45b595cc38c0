//! The settings that are kept between runs.

use vstd::prelude::*;

verus! {

/// The name under which the settings are kept.
pub const APP_NAME: &'static str = "tongues";

/// The settings: whether answers are kept on disk.
#[derive(Debug, Clone, Copy, PartialEq, Eq, Structural)]
pub struct TonguesConfig {
    pub caching: bool,
}

impl Default for TonguesConfig {
    /// Answers are kept unless the user says otherwise.
    fn default() -> (settings: Self)
        ensures
            settings.caching,
    {
        TonguesConfig { caching: true }
    }
}

impl TonguesConfig {
    /// These settings with caching switched to `caching`.
    pub fn with_caching(self, caching: bool) -> (settings: Self)
        ensures
            settings == (TonguesConfig { caching, ..self }),
    {
        TonguesConfig { caching, ..self }
    }
}

} // verus!
