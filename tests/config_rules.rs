use ram_sentinel::config::{
    compile_pattern, compile_patterns, default_interval, default_kill_targets, default_strategy,
    sigterm_wait_ms, warn_interval, Config, KillStrategy, MemoryConfig, MemoryConfigParsed,
    Pattern,
};
use ram_sentinel::config_error::{ConfigError, ConfigField};
use ram_sentinel::psi::{PsiConfig, PsiConfigParsed, PsiError, PsiInvalid};
use ram_sentinel::utils::parse_size;

const GIB: u64 = 1024 * 1024 * 1024;

fn empty_memory() -> MemoryConfig {
    MemoryConfig {
        warn_min_free_bytes: None,
        warn_min_free_percent: None,
        kill_min_free_bytes: None,
        kill_min_free_percent: None,
    }
}

fn ram_only(kill_percent: i64) -> Config {
    Config {
        psi: None,
        ram: Some(MemoryConfig { kill_min_free_percent: Some(kill_percent), ..empty_memory() }),
        swap: None,
        check_interval_ms: 1000,
        warn_reset_ms: 30000,
        sigterm_wait_ms: 5000,
        ignore_names: vec![],
        kill_targets: vec![],
        kill_strategy: KillStrategy::LargestRss,
    }
}

#[test]
fn pattern_slashes_make_a_regex() {
    match compile_pattern("/x/").unwrap() {
        Pattern::Regex(m) => assert_eq!(m.source(), "x"),
        other => panic!("unexpected {:?}", other),
    }
}

#[test]
fn pattern_caret_makes_a_prefix() {
    match compile_pattern("^x").unwrap() {
        Pattern::StartsWith(p) => assert_eq!(p, "x"),
        other => panic!("unexpected {:?}", other),
    }
}

#[test]
fn pattern_plain_text_is_a_literal() {
    match compile_pattern("x").unwrap() {
        Pattern::Literal(p) => assert_eq!(p, "x"),
        other => panic!("unexpected {:?}", other),
    }
}

#[test]
fn pattern_lone_caret_is_empty_prefix() {
    match compile_pattern("^").unwrap() {
        Pattern::StartsWith(p) => assert_eq!(p, ""),
        other => panic!("unexpected {:?}", other),
    }
    assert!(compile_pattern("^").unwrap().matches("anything"));
}

#[test]
fn pattern_degenerate_forms_are_literals() {
    for raw in ["/", "//", ""] {
        match compile_pattern(raw).unwrap() {
            Pattern::Literal(p) => assert_eq!(p, raw),
            other => panic!("unexpected {:?} for {:?}", other, raw),
        }
    }
}

#[test]
fn pattern_bad_regex_is_refused() {
    assert!(compile_pattern("/(/").is_err());
}

#[test]
fn pattern_matching_by_kind() {
    let lit = compile_pattern("type=renderer").unwrap();
    assert!(lit.matches("/opt/chrome --type=renderer --lang=en"));
    assert!(!lit.matches("/opt/chrome --type=gpu"));
    let pre = compile_pattern("^/usr/bin/fire").unwrap();
    assert!(pre.matches("/usr/bin/firefox -contentproc"));
    assert!(!pre.matches("x /usr/bin/firefox"));
    let re = compile_pattern("/^java .*-Xmx[0-9]+g/").unwrap();
    assert!(re.matches("java -server -Xmx8g app.jar"));
    assert!(!re.matches("javac -Xmx8g"));
}

#[test]
fn compile_patterns_reports_first_bad_entry() {
    let raw = vec!["ok".to_string(), "/[/".to_string(), "/(/".to_string()];
    match compile_patterns(&raw, ConfigField::KillTargets) {
        Err(ConfigError::RegexError(f, i, p, _)) => {
            assert_eq!(f, ConfigField::KillTargets);
            assert_eq!(i, 1);
            assert_eq!(p, "/[/");
        }
        other => panic!("unexpected {:?}", other),
    }
}

#[test]
fn size_decimal_and_binary_units() {
    assert_eq!(parse_size("500M"), Some(500_000_000));
    assert_eq!(parse_size("500MiB"), Some(500 * 1024 * 1024));
    assert_eq!(parse_size("2GiB"), Some(2 * GIB));
    assert_eq!(parse_size("100M"), Some(100_000_000));
    assert_eq!(parse_size("not a size"), None);
}

#[test]
fn size_printed_bytes_parse_back() {
    for n in [0u64, 1, 4096, 123_456_789, 500_000_000] {
        assert_eq!(parse_size(&n.to_string()), Some(n));
    }
}

#[test]
fn interval_bounds_accepted() {
    for ms in [100u64, 300000] {
        let mut c = ram_only(500);
        c.check_interval_ms = ms;
        assert!(c.validate().is_ok());
    }
}

#[test]
fn interval_below_range_exits_six() {
    let mut c = ram_only(500);
    c.check_interval_ms = 99;
    let e = c.validate().unwrap_err();
    assert!(matches!(e, ConfigError::IntervalTooLow(99)));
    assert_eq!(e.exit_code(), 6);
}

#[test]
fn interval_above_range_exits_five() {
    let mut c = ram_only(500);
    c.check_interval_ms = 300001;
    let e = c.validate().unwrap_err();
    assert!(matches!(e, ConfigError::IntervalTooHigh(300001)));
    assert_eq!(e.exit_code(), 5);
}

#[test]
fn empty_configuration_exits_four() {
    let mut c = ram_only(500);
    c.ram = Some(empty_memory());
    c.swap = Some(empty_memory());
    c.psi = Some(PsiConfig {
        warn_max_percent: None,
        kill_max_percent: None,
        amount_to_free: Some("1G".to_string()),
        check_interval_ms: None,
    });
    let e = c.validate().unwrap_err();
    assert!(matches!(e, ConfigError::EffectiveEmpty));
    assert_eq!(e.exit_code(), 4);
}

#[test]
fn memory_section_bad_size_exits_ten() {
    let m = MemoryConfig { kill_min_free_bytes: Some("lots".to_string()), ..empty_memory() };
    let e = MemoryConfigParsed::try_from_config(m).unwrap_err();
    match &e {
        ConfigError::InvalidSize(f, v) => {
            assert_eq!(*f, ConfigField::KillMinFreeBytes);
            assert_eq!(v, "lots");
        }
        other => panic!("unexpected {:?}", other),
    }
    assert_eq!(e.exit_code(), 10);
}

#[test]
fn memory_section_bad_percent_exits_eleven() {
    let m = MemoryConfig { warn_min_free_percent: Some(10001), ..empty_memory() };
    let e = MemoryConfigParsed::try_from_config(m).unwrap_err();
    assert!(matches!(e, ConfigError::InvalidPercent(ConfigField::WarnMinFreePercent, 10001)));
    assert_eq!(e.exit_code(), 11);
    let m = MemoryConfig { kill_min_free_percent: Some(-1), ..empty_memory() };
    assert!(matches!(
        MemoryConfigParsed::try_from_config(m),
        Err(ConfigError::InvalidPercent(ConfigField::KillMinFreePercent, -1))
    ));
}

#[test]
fn memory_section_parses_sizes() {
    let m = MemoryConfig {
        warn_min_free_bytes: Some("2GiB".to_string()),
        warn_min_free_percent: Some(0),
        kill_min_free_bytes: Some("100M".to_string()),
        kill_min_free_percent: Some(10000),
    };
    let p = MemoryConfigParsed::try_from_config(m).unwrap();
    assert_eq!(p.warn_min_free_bytes, Some(2 * GIB));
    assert_eq!(p.kill_min_free_bytes, Some(100_000_000));
    assert_eq!(p.warn_min_free_percent, Some(0));
    assert_eq!(p.kill_min_free_percent, Some(10000));
}

fn psi(warn: Option<i64>, kill: Option<i64>, amount: Option<&str>, iv: Option<u64>) -> PsiConfig {
    PsiConfig {
        warn_max_percent: warn,
        kill_max_percent: kill,
        amount_to_free: amount.map(|s| s.to_string()),
        check_interval_ms: iv,
    }
}

#[test]
fn psi_section_defaults_interval_to_ten_ticks() {
    let p = PsiConfigParsed::try_from_config(psi(Some(2000), Some(6000), Some("500M"), None), 1000, 32 * GIB)
        .unwrap();
    assert_eq!(p.check_interval_ms, 10000);
    assert_eq!(p.amount_to_free, Some(500_000_000));
    assert_eq!(p.warn_max_percent, Some(2000));
    assert_eq!(p.kill_max_percent, Some(6000));
}

#[test]
fn psi_section_errors() {
    let total = 32 * GIB;
    let check = |c: PsiConfig, g: u64| PsiConfigParsed::try_from_config(c, g, total).unwrap_err();
    assert!(matches!(
        check(psi(Some(10001), None, None, None), 1000),
        PsiError::ValidationError(PsiInvalid::WarnPercentOutOfRange(10001))
    ));
    assert!(matches!(
        check(psi(None, Some(-5), None, None), 1000),
        PsiError::ValidationError(PsiInvalid::KillPercentOutOfRange(-5))
    ));
    assert!(matches!(
        check(psi(None, Some(6000), None, None), 1000),
        PsiError::ValidationError(PsiInvalid::AmountMissing)
    ));
    assert!(matches!(
        check(psi(None, Some(6000), Some("lots"), None), 1000),
        PsiError::ValidationError(PsiInvalid::AmountUnparsable(_))
    ));
    assert!(matches!(
        check(psi(None, Some(6000), Some("0"), None), 1000),
        PsiError::ValidationError(PsiInvalid::AmountZero)
    ));
    assert!(matches!(
        check(psi(None, Some(6000), Some("17GiB"), None), 1000),
        PsiError::ValidationError(PsiInvalid::AmountTooLarge(_, _))
    ));
    assert!(matches!(
        check(psi(Some(2000), None, None, Some(99)), 1000),
        PsiError::ValidationError(PsiInvalid::IntervalOutOfRange(99))
    ));
    assert!(matches!(
        check(psi(Some(2000), None, None, None), 30001),
        PsiError::ValidationError(PsiInvalid::IntervalOutOfRange(300010))
    ));
}

#[test]
fn defaults_are_as_documented() {
    assert_eq!(default_interval(), 1000);
    assert_eq!(warn_interval(), 30000);
    assert_eq!(sigterm_wait_ms(), 5000);
    assert_eq!(default_strategy(), KillStrategy::HighestOomScore);
    assert_eq!(default_kill_targets(), vec!["type=renderer".to_string(), "-contentproc".to_string()]);
    let c = Config::sane_defaults();
    assert_eq!(c.ram.as_ref().unwrap().warn_min_free_percent, Some(1000));
    assert_eq!(c.ram.as_ref().unwrap().kill_min_free_percent, Some(500));
    assert!(c.swap.as_ref().unwrap().is_effectively_empty());
    assert!(c.psi.as_ref().unwrap().is_effectively_empty());
}

#[test]
fn load_defaults_builds_context() {
    let ctx = Config::load(Config::sane_defaults(), 16 * GIB, Ok(())).unwrap();
    assert!(ctx.psi.is_none());
    let mut c = Config::sane_defaults();
    c.psi = Some(psi(Some(2000), None, None, None));
    let with_psi = Config::load(c, 16 * GIB, Ok(())).unwrap();
    assert_eq!(with_psi.psi.as_ref().unwrap().check_interval_ms, 10000);
    assert_eq!(ctx.ram.unwrap().kill_min_free_percent, Some(500));
    assert_eq!(ctx.kill_targets_regex.len(), 2);
    assert!(matches!(ctx.kill_targets_regex[0], Pattern::Literal(_)));
    assert_eq!(ctx.kill_strategy, KillStrategy::HighestOomScore);
}

#[test]
fn load_with_psi_and_no_pressure_file_exits_eight() {
    let mut c = Config::sane_defaults();
    c.psi = Some(psi(Some(2000), None, None, None));
    let e = Config::load(c, 16 * GIB, Err(PsiError::FieldNotFound)).unwrap_err();
    assert!(matches!(e, ConfigError::PsiUnavailable(PsiError::FieldNotFound)));
    assert_eq!(e.exit_code(), 8);
    let ctx = Config::load(ram_only(500), 16 * GIB, Err(PsiError::FieldNotFound));
    assert!(ctx.is_ok());
}

#[test]
fn empty_psi_section_ignores_missing_pressure_file() {
    let mut defaults = Config::sane_defaults();
    defaults.psi = Some(psi(None, None, None, None));
    assert!(!defaults.needs_psi());
    let ctx = Config::load(defaults, 16 * GIB, Err(PsiError::Io("missing".to_string()))).unwrap();
    assert!(ctx.psi.is_none());
    let mut c = ram_only(500);
    c.psi = Some(psi(None, None, Some("lots"), None));
    assert!(matches!(
        Config::load(c, 16 * GIB, Err(PsiError::FieldNotFound)),
        Err(ConfigError::PsiConfig(PsiError::ValidationError(PsiInvalid::AmountUnparsable(_))))
    ));
    let mut c = ram_only(500);
    c.psi = Some(psi(Some(2000), None, None, None));
    assert!(c.needs_psi());
}

#[test]
fn load_with_bad_psi_exits_seven() {
    let mut c = ram_only(500);
    c.psi = Some(psi(None, Some(6000), None, None));
    let e = Config::load(c, 16 * GIB, Ok(())).unwrap_err();
    assert!(matches!(e, ConfigError::PsiConfig(PsiError::ValidationError(PsiInvalid::AmountMissing))));
    assert_eq!(e.exit_code(), 7);
}

#[test]
fn load_with_bad_regex_exits_nine() {
    let mut c = ram_only(500);
    c.ignore_names = vec!["/(/".to_string()];
    let e = Config::load(c, 16 * GIB, Ok(())).unwrap_err();
    assert!(matches!(e, ConfigError::RegexError(ConfigField::IgnoreNames, 0, _, _)));
    assert_eq!(e.exit_code(), 9);
}

#[test]
fn load_keeps_pattern_shapes_in_order() {
    let mut c = ram_only(500);
    c.kill_targets = vec!["/a+/".to_string(), "^b".to_string(), "c".to_string()];
    let ctx = Config::load(c, 16 * GIB, Ok(())).unwrap();
    assert!(matches!(ctx.kill_targets_regex[0], Pattern::Regex(_)));
    assert!(matches!(&ctx.kill_targets_regex[1], Pattern::StartsWith(p) if p == "b"));
    assert!(matches!(&ctx.kill_targets_regex[2], Pattern::Literal(p) if p == "c"));
}

#[test]
fn exit_codes_for_file_errors() {
    assert_eq!(ConfigError::ConfigFileNotFound("x".to_string()).exit_code(), 2);
    assert_eq!(ConfigError::FileRead("x".to_string(), "denied".to_string()).exit_code(), 2);
    assert_eq!(ConfigError::FileParse("x".to_string(), "bad".to_string()).exit_code(), 3);
    assert_eq!(ConfigField::WarnMinFreeBytes.name(), "warnMinFreeBytes");
}
