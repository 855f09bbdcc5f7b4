use hyperview::cli_data::DebugLevels;
use hyperview::cli_functions::get_debug_filter;
use log::LevelFilter;

#[test]
fn cli_functions_test_get_debug_filter() {
    assert_eq!(get_debug_filter(DebugLevels::Error), LevelFilter::Error);
    assert_eq!(get_debug_filter(DebugLevels::Warn), LevelFilter::Warn);
    assert_eq!(get_debug_filter(DebugLevels::Debug), LevelFilter::Debug);
    assert_eq!(get_debug_filter(DebugLevels::Info), LevelFilter::Info);
    assert_eq!(get_debug_filter(DebugLevels::Trace), LevelFilter::Trace);
}
