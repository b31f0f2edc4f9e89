use ram_sentinel::config::{Config, KillStrategy, MemoryConfig, RuntimeContext};
use ram_sentinel::events::{SentinelEvent, ThresholdKind, Trigger};
use ram_sentinel::monitor::{
    calc_needed, check_kill, check_warn, loop_action, LoopAction, Monitor, MonitorStatus, Readings,
};
use ram_sentinel::config::MemoryConfigParsed;
use ram_sentinel::psi::{
    compute_pressure, exceeds, parse_psi_total, validate_psi_availability, PsiConfig, PsiError,
};

const GIB: u64 = 1024 * 1024 * 1024;
const MIB: u64 = 1024 * 1024;

fn memory(
    warn_bytes: Option<&str>,
    warn_pct: Option<i64>,
    kill_bytes: Option<&str>,
    kill_pct: Option<i64>,
) -> MemoryConfig {
    MemoryConfig {
        warn_min_free_bytes: warn_bytes.map(|s| s.to_string()),
        warn_min_free_percent: warn_pct,
        kill_min_free_bytes: kill_bytes.map(|s| s.to_string()),
        kill_min_free_percent: kill_pct,
    }
}

fn context(psi: Option<PsiConfig>, ram: Option<MemoryConfig>, swap: Option<MemoryConfig>) -> RuntimeContext {
    let c = Config {
        psi,
        ram,
        swap,
        check_interval_ms: 1000,
        warn_reset_ms: 30000,
        sigterm_wait_ms: 5000,
        ignore_names: vec![],
        kill_targets: vec![],
        kill_strategy: KillStrategy::LargestRss,
    };
    Config::load(c, 32 * GIB, Ok(())).unwrap()
}

fn readings(now_us: u64, ram_available: u64, ram_total: u64, swap_free: u64, swap_total: u64) -> Readings {
    Readings { now_us, ram_available, ram_total, swap_free, swap_total, psi_total: None }
}

#[test]
fn low_ram_kill_by_percent() {
    let ctx = context(None, Some(memory(None, None, None, Some(500))), None);
    let mut m = Monitor::new(None, 0);
    let st = m.check(&ctx, &readings(1_000_000, GIB, 32 * GIB, 0, 0));
    match st {
        MonitorStatus::Kill(SentinelEvent::KillTriggered {
            trigger,
            observed_value,
            threshold_value,
            threshold_type,
            amount_needed,
        }) => {
            assert_eq!(trigger, Trigger::LowMemory);
            assert_eq!(threshold_type, ThresholdKind::Percent);
            assert_eq!(threshold_value, 500);
            assert_eq!(observed_value, 312);
            assert_eq!(amount_needed, Some(32 * GIB * 5 / 100 - GIB));
            assert_eq!(amount_needed, Some(644_245_094));
        }
        other => panic!("unexpected {:?}", other),
    }
    assert_eq!(m.ram_bytes, Some(GIB));
    assert_eq!(m.ram_percent, Some(312));
}

#[test]
fn swap_only_kill_by_bytes() {
    let ctx = context(None, None, Some(memory(None, None, Some("100M"), None)));
    let mut m = Monitor::new(None, 0);
    let st = m.check(&ctx, &readings(1_000_000, GIB, 32 * GIB, 50 * MIB, 8 * GIB));
    match st {
        MonitorStatus::Kill(SentinelEvent::KillTriggered {
            trigger,
            observed_value,
            threshold_value,
            threshold_type,
            amount_needed,
        }) => {
            assert_eq!(trigger, Trigger::LowSwap);
            assert_eq!(threshold_type, ThresholdKind::Bytes);
            assert_eq!(threshold_value, 100_000_000);
            assert_eq!(observed_value, 50 * MIB);
            assert_eq!(amount_needed, Some(100_000_000 - 50 * MIB));
        }
        other => panic!("unexpected {:?}", other),
    }
    assert_eq!(m.ram_bytes, None);
}

fn psi_trip_context() -> RuntimeContext {
    context(
        Some(PsiConfig {
            warn_max_percent: Some(2000),
            kill_max_percent: Some(6000),
            amount_to_free: Some("500M".to_string()),
            check_interval_ms: Some(10000),
        }),
        None,
        None,
    )
}

#[test]
fn psi_trip_kills() {
    let ctx = psi_trip_context();
    let mut m = Monitor::new(Some(1_000_000), 0);
    let mut r = readings(10_000_000, GIB, 32 * GIB, 0, 0);
    assert!(m.psi_due(&ctx, r.now_us));
    r.psi_total = Some(8_000_000);
    match m.check(&ctx, &r) {
        MonitorStatus::Kill(SentinelEvent::KillTriggered {
            trigger,
            observed_value,
            threshold_value,
            amount_needed,
            ..
        }) => {
            assert_eq!(trigger, Trigger::PsiPressure);
            assert_eq!(observed_value, 7000);
            assert_eq!(threshold_value, 6000);
            assert_eq!(amount_needed, Some(500_000_000));
        }
        other => panic!("unexpected {:?}", other),
    }
    assert_eq!(m.last_psi_total, Some(8_000_000));
    assert_eq!(m.psi_pressure, Some(7000));
}

#[test]
fn psi_first_sample_sets_baseline() {
    let ctx = psi_trip_context();
    let mut m = Monitor::new(None, 0);
    let mut r = readings(10_000_000, GIB, 32 * GIB, 0, 0);
    r.psi_total = Some(8_000_000);
    assert!(matches!(m.check(&ctx, &r), MonitorStatus::Normal));
    assert_eq!(m.last_psi_total, Some(8_000_000));
    assert_eq!(m.last_psi_time_us, 10_000_000);
    assert_eq!(m.psi_pressure, None);
}

#[test]
fn psi_not_due_is_skipped() {
    let ctx = psi_trip_context();
    let mut m = Monitor::new(Some(1_000_000), 0);
    let mut r = readings(9_999_999, GIB, 32 * GIB, 0, 0);
    assert!(!m.psi_due(&ctx, r.now_us));
    r.psi_total = Some(9_000_000);
    assert!(matches!(m.check(&ctx, &r), MonitorStatus::Normal));
    assert_eq!(m.last_psi_total, Some(1_000_000));
}

#[test]
fn psi_warn_between_thresholds() {
    let ctx = psi_trip_context();
    let mut m = Monitor::new(Some(0), 0);
    let mut r = readings(10_000_000, GIB, 32 * GIB, 0, 0);
    r.psi_total = Some(3_000_000);
    match m.check(&ctx, &r) {
        MonitorStatus::Warn(SentinelEvent::PsiPressureWarn { pressure_curr, threshold }) => {
            assert_eq!(pressure_curr, 3000);
            assert_eq!(threshold, 2000);
        }
        other => panic!("unexpected {:?}", other),
    }
}

#[test]
fn warn_is_rate_limited() {
    let ctx = context(None, Some(memory(None, Some(1000), None, Some(500))), None);
    let mut m = Monitor::new(None, 0);
    let avail = 32 * GIB * 8 / 100;
    let first = m.check(&ctx, &readings(1_000_000, avail, 32 * GIB, 0, 0));
    match first {
        MonitorStatus::Warn(SentinelEvent::LowMemoryWarn {
            available_bytes,
            available_percent,
            threshold_type,
            threshold_value,
        }) => {
            assert_eq!(available_bytes, avail);
            assert_eq!(available_percent, 799);
            assert_eq!(threshold_type, ThresholdKind::Percent);
            assert_eq!(threshold_value, 1000);
        }
        other => panic!("unexpected {:?}", other),
    }
    let second = m.check(&ctx, &readings(2_000_000, avail, 32 * GIB, 0, 0));
    assert!(matches!(second, MonitorStatus::Normal));
    let later = m.check(&ctx, &readings(31_000_000, avail, 32 * GIB, 0, 0));
    assert!(matches!(later, MonitorStatus::Warn(_)));
}

#[test]
fn ram_warn_is_kept_over_swap_warn() {
    let ctx = context(
        None,
        Some(memory(None, Some(1000), None, None)),
        Some(memory(Some("1G"), None, None, None)),
    );
    let mut m = Monitor::new(None, 0);
    let st = m.check(&ctx, &readings(1_000_000, GIB, 32 * GIB, MIB, 8 * GIB));
    assert!(matches!(st, MonitorStatus::Warn(SentinelEvent::LowMemoryWarn { .. })));
    assert_eq!(m.swap_bytes, Some(MIB));
}

#[test]
fn empty_swap_is_skipped() {
    let ctx = context(None, None, Some(memory(None, None, Some("100M"), Some(5000))));
    let mut m = Monitor::new(None, 0);
    let st = m.check(&ctx, &readings(1_000_000, GIB, 32 * GIB, 0, 0));
    assert!(matches!(st, MonitorStatus::Normal));
    assert_eq!(m.swap_bytes, None);
    assert_eq!(m.swap_percent, None);
}

#[test]
fn byte_threshold_overrides_percent() {
    let c = MemoryConfigParsed {
        warn_min_free_bytes: Some(100),
        warn_min_free_percent: Some(9000),
        kill_min_free_bytes: Some(50),
        kill_min_free_percent: Some(9000),
    };
    assert_eq!(check_kill(&c, 60, 1000), None);
    assert_eq!(check_warn(&c, 60, 1000), Some((100, ThresholdKind::Bytes)));
    assert_eq!(check_kill(&c, 40, 1000), Some((50, ThresholdKind::Bytes)));
    assert_eq!(calc_needed(&c, 40, 1000), Some(10));
    assert_eq!(calc_needed(&c, 50, 1000), None);
}

#[test]
fn percent_threshold_and_needed() {
    let c = MemoryConfigParsed {
        warn_min_free_bytes: None,
        warn_min_free_percent: None,
        kill_min_free_bytes: None,
        kill_min_free_percent: Some(500),
    };
    assert_eq!(check_kill(&c, 49, 1000), Some((500, ThresholdKind::Percent)));
    assert_eq!(check_kill(&c, 50, 1000), None);
    assert_eq!(calc_needed(&c, 49, 1000), Some(1));
    assert_eq!(check_warn(&c, 0, 1000), None);
}

#[test]
fn dry_run_never_kills() {
    let ev = SentinelEvent::KillTriggered {
        trigger: Trigger::LowMemory,
        observed_value: 312,
        threshold_value: 500,
        threshold_type: ThresholdKind::Percent,
        amount_needed: Some(1000),
    };
    let st = MonitorStatus::Kill(ev.clone());
    assert_eq!(loop_action(&st, true), LoopAction::DryRun);
    assert_eq!(loop_action(&st, false), LoopAction::RunKill(1000));
    assert_eq!(loop_action(&MonitorStatus::Normal, true), LoopAction::Idle);
    let none = MonitorStatus::Kill(SentinelEvent::KillTriggered {
        trigger: Trigger::LowMemory,
        observed_value: 0,
        threshold_value: 0,
        threshold_type: ThresholdKind::Bytes,
        amount_needed: None,
    });
    assert_eq!(loop_action(&none, false), LoopAction::NoAmount);
    let odd = MonitorStatus::Kill(SentinelEvent::Startup { interval_ms: 1 });
    assert_eq!(loop_action(&odd, false), LoopAction::NotATrigger);
    let ctx = context(None, Some(memory(None, None, None, Some(500))), None);
    let mut m = Monitor::new(None, 0);
    assert!(matches!(m.check(&ctx, &readings(1_000_000, GIB, 32 * GIB, 0, 0)), MonitorStatus::Kill(_)));
    assert!(matches!(m.check(&ctx, &readings(2_000_000, 16 * GIB, 32 * GIB, 0, 0)), MonitorStatus::Normal));
}

#[test]
fn pressure_formula() {
    assert_eq!(compute_pressure(1_000_000, 8_000_000, 10_000_000), 7000);
    assert!(exceeds(1_000_000, 8_000_000, 10_000_000, 6000));
    assert!(!exceeds(1_000_000, 8_000_000, 10_000_000, 7000));
    assert_eq!(compute_pressure(5, 3, 10), 0);
    assert_eq!(compute_pressure(0, 100, 0), 0);
    assert!(!exceeds(0, 100, 0, 0));
}

#[test]
fn unchanged_counter_means_no_pressure() {
    for dt in [1u64, 1000, 10_000_000, u64::MAX] {
        assert_eq!(compute_pressure(42, 42, dt), 0);
        assert!(!exceeds(42, 42, dt, 0));
    }
}

const PRESSURE: &str = "some avg10=0.00 avg60=0.00 avg300=0.00 total=12345\nfull avg10=0.00 avg60=0.00 avg300=0.00 total=678\n";

#[test]
fn pressure_file_some_total() {
    assert_eq!(parse_psi_total(PRESSURE.as_bytes()).unwrap(), 12345);
}

#[test]
fn pressure_file_errors() {
    assert!(matches!(
        parse_psi_total(b"full avg10=0.00 total=5\n"),
        Err(PsiError::FieldNotFound)
    ));
    assert!(matches!(parse_psi_total(b"some avg10=0.00 total=x1\n"), Err(PsiError::Parse)));
    assert!(matches!(parse_psi_total(b""), Err(PsiError::FieldNotFound)));
    assert_eq!(parse_psi_total(b"some avg10=1\nsome total=+77").unwrap(), 77);
    assert!(matches!(
        validate_psi_availability(&Err("missing".to_string())),
        Err(PsiError::Io(m)) if m == "missing"
    ));
    assert!(validate_psi_availability(&Ok(PRESSURE.as_bytes().to_vec())).is_ok());
}
