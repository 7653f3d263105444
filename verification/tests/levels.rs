use lambda_utils::{LogLevel, Verbosity};

#[test]
fn test_verbosity_from_u8() {
    assert_eq!(Verbosity::from(0u8), Verbosity::Info);
    assert_eq!(Verbosity::from(1u8), Verbosity::Debug);
    assert_eq!(Verbosity::from(2u8), Verbosity::Trace);
    assert_eq!(Verbosity::from(3u8), Verbosity::Info);
    assert_eq!(Verbosity::from(255u8), Verbosity::Info);
}

#[test]
fn test_verbosity_from_bool() {
    assert_eq!(Verbosity::from(true), Verbosity::Debug);
    assert_eq!(Verbosity::from(false), Verbosity::Info);
}

#[test]
fn test_log_level_from_verbosity() {
    assert_eq!(LogLevel::from(Verbosity::Trace), LogLevel::Trace);
    assert_eq!(LogLevel::from(Verbosity::Debug), LogLevel::Debug);
    assert_eq!(LogLevel::from(Verbosity::Info), LogLevel::Info);
}
