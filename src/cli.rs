use vstd::prelude::*;

use log::LevelFilter;

use crate::text::same_text;

verus! {

/// The logger filter for a verbosity named on the command line; a name that
/// is not one of the levels gives `Info`.
pub fn get_debug_filter(debug_level: &str) -> (r: LevelFilter)
    ensures
        r == (if debug_level@ == "error"@ {
            LevelFilter::Error
        } else if debug_level@ == "warn"@ {
            LevelFilter::Warn
        } else if debug_level@ == "debug"@ {
            LevelFilter::Debug
        } else if debug_level@ == "trace"@ {
            LevelFilter::Trace
        } else {
            LevelFilter::Info
        }),
{
    if same_text(debug_level, "error") {
        LevelFilter::Error
    } else if same_text(debug_level, "warn") {
        LevelFilter::Warn
    } else if same_text(debug_level, "debug") {
        LevelFilter::Debug
    } else if same_text(debug_level, "trace") {
        LevelFilter::Trace
    } else {
        LevelFilter::Info
    }
}

} // verus!
