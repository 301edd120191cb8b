use etw_eventheader_log::level::map_level;
use etw_eventheader_log::level::Level;

#[test]
fn level_table_is_exact() {
    assert_eq!(map_level(Level::Error), 2);
    assert_eq!(map_level(Level::Warn), 3);
    assert_eq!(map_level(Level::Info), 4);
    assert_eq!(map_level(Level::Debug), 5);
    assert_eq!(map_level(Level::Trace), 6);
}

#[test]
fn trace_lands_one_past_debug() {
    assert_eq!(map_level(Level::Trace), map_level(Level::Debug) + 1);
    assert_ne!(map_level(Level::Trace), map_level(Level::Debug));
}

#[test]
fn severity_numbers_follow_the_facade() {
    assert_eq!(Level::Error.number(), 1);
    assert_eq!(Level::Warn.number(), 2);
    assert_eq!(Level::Info.number(), 3);
    assert_eq!(Level::Debug.number(), 4);
    assert_eq!(Level::Trace.number(), 5);
}

#[test]
fn severity_text_is_upper_case() {
    assert_eq!(Level::Error.as_str(), "ERROR");
    assert_eq!(Level::Warn.as_str(), "WARN");
    assert_eq!(Level::Info.as_str(), "INFO");
    assert_eq!(Level::Debug.as_str(), "DEBUG");
    assert_eq!(Level::Trace.as_str(), "TRACE");
}
