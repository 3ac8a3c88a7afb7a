//! Settings of the sound indicators and what holds where they are not set.

use vstd::prelude::*;

verus! {

/// The configuration the sound settings are read from.
pub const AUDIO_CONFIG: &'static str = "com.system76.CosmicAudio";

pub const AMPLIFICATION_SINK: &'static str = "amplification_sink";

pub const AMPLIFICATION_SOURCE: &'static str = "amplification_source";

/// Whether output may be amplified beyond a hundred percent: as configured,
/// and allowed where nothing is configured or the setting cannot be read.
pub fn amplification_sink(configured: Option<bool>) -> (allowed: bool)
    ensures
        allowed == (match configured {
            Some(value) => value,
            None => true,
        }),
{
    match configured {
        Some(value) => value,
        None => true,
    }
}

/// Whether input may be amplified beyond a hundred percent: as configured,
/// and not allowed where nothing is configured or the setting cannot be
/// read.
pub fn amplification_source(configured: Option<bool>) -> (allowed: bool)
    ensures
        allowed == (match configured {
            Some(value) => value,
            None => false,
        }),
{
    match configured {
        Some(value) => value,
        None => false,
    }
}

} // verus!
