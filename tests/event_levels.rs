use ram_sentinel::events::{KillSignal, LogLevel, LogMode, SentinelEvent, ThresholdKind, Trigger};
use ram_sentinel::logging::{
    get_log_level, get_log_mode, notifies, set_logging_level, set_logging_mode, should_emit,
    LogCells,
};

#[test]
fn level_codes_round_trip() {
    for l in [LogLevel::Error, LogLevel::Warn, LogLevel::Info, LogLevel::Debug] {
        assert_eq!(LogLevel::from_u8(l.code()), l);
    }
    assert_eq!(LogLevel::from_u8(0), LogLevel::Info);
    assert_eq!(LogLevel::from_u8(9), LogLevel::Info);
    assert_eq!(LogLevel::Error.as_str(), "ERROR");
    assert_eq!(LogLevel::Warn.as_str(), "WARN");
    assert_eq!(LogLevel::Info.as_str(), "INFO");
    assert_eq!(LogLevel::Debug.as_str(), "DEBUG");
}

#[test]
fn mode_codes() {
    assert_eq!(LogMode::from_u8(1), LogMode::Json);
    assert_eq!(LogMode::from_u8(0), LogMode::Compact);
    assert_eq!(LogMode::from_u8(7), LogMode::Compact);
    assert_eq!(LogMode::Json.code(), 1);
}

#[test]
fn settings_cells() {
    let mut cells = LogCells::new();
    assert_eq!(get_log_level(&cells), LogLevel::Info);
    assert_eq!(get_log_mode(&cells), LogMode::Compact);
    set_logging_level(&mut cells, LogLevel::Debug);
    set_logging_mode(&mut cells, LogMode::Json);
    assert_eq!(get_log_level(&cells), LogLevel::Debug);
    assert_eq!(get_log_mode(&cells), LogMode::Json);
}

#[test]
fn severities_and_filtering() {
    let heartbeat = SentinelEvent::Monitor {
        memory_available_bytes: None,
        memory_available_percent: None,
        swap_free_bytes: None,
        swap_free_percent: None,
        psi_pressure: None,
    };
    let warn = SentinelEvent::PsiPressureWarn { pressure_curr: 3000, threshold: 2000 };
    let kill = SentinelEvent::KillTriggered {
        trigger: Trigger::PsiPressure,
        observed_value: 7000,
        threshold_value: 6000,
        threshold_type: ThresholdKind::Percent,
        amount_needed: Some(1),
    };
    let done = SentinelEvent::KillExecuted {
        pid: 1,
        process_name: "x".to_string(),
        strategy: KillSignal::SigTerm,
        rss_freed: 1,
    };
    assert_eq!(heartbeat.severity(), LogLevel::Debug);
    assert_eq!(warn.severity(), LogLevel::Warn);
    assert_eq!(kill.severity(), LogLevel::Error);
    assert_eq!(done.severity(), LogLevel::Info);
    assert_eq!(SentinelEvent::Startup { interval_ms: 1 }.severity(), LogLevel::Info);
    assert!(!should_emit(&heartbeat, LogLevel::Info));
    assert!(should_emit(&heartbeat, LogLevel::Debug));
    assert!(should_emit(&kill, LogLevel::Error));
    assert!(!should_emit(&warn, LogLevel::Error));
    assert!(notifies(&warn) && notifies(&kill) && notifies(&done));
    assert!(!notifies(&heartbeat));
    let msg = SentinelEvent::Message { level: LogLevel::Error, text: "e".to_string() };
    assert!(notifies(&msg));
    let warn_msg = SentinelEvent::Message { level: LogLevel::Warn, text: "w".to_string() };
    assert!(!notifies(&warn_msg));
    assert_eq!(msg.severity(), LogLevel::Error);
}
