use vstd::prelude::*;

use log::LevelFilter;

use crate::cli_data::DebugLevels;

verus! {

/// Declares log's `LevelFilter`, a field-less enum (`Off`, `Error`, `Warn`,
/// `Info`, `Debug`, `Trace`), so that its variants can be named here.
#[verifier::external_type_specification]
pub struct ExLevelFilter(log::LevelFilter);

/// The logger filter that admits messages up to `debug_level`.
pub fn get_debug_filter(debug_level: DebugLevels) -> (r: LevelFilter)
    ensures
        r == (match debug_level {
            DebugLevels::Error => LevelFilter::Error,
            DebugLevels::Warn => LevelFilter::Warn,
            DebugLevels::Info => LevelFilter::Info,
            DebugLevels::Debug => LevelFilter::Debug,
            DebugLevels::Trace => LevelFilter::Trace,
        }),
{
    match debug_level {
        DebugLevels::Error => LevelFilter::Error,
        DebugLevels::Warn => LevelFilter::Warn,
        DebugLevels::Debug => LevelFilter::Debug,
        DebugLevels::Trace => LevelFilter::Trace,
        DebugLevels::Info => LevelFilter::Info,
    }
}

} // verus!
