use ambient_light::capture::{CaptureConfig, SpaVideoFormat};
use ambient_light::cli::{CLIFlags, CLIFlagsManager, CliAction};
use ambient_light::config_tree::{merge_overlays, merge_toml_tables, ConfigTable, ConfigValue};
use ambient_light::configs::{
    validate_config, validate_configs, warn_validate, ConfigValidate, ValidationError, ValidationRun,
    ValidationWarning,
};
use ambient_light::ddp::DdpConfig;
use ambient_light::logger::{format_log_line, set_max_log_level, should_log, LogLevel};
use ambient_light::manifest::{
    config_sources, effective_daemon_settings, get_flags, has_required_sections, DaemonSettings,
    Flags, Manifest, Paths,
};
use ambient_light::paths::{expand_tilde, join_path, resolve_path};
use ambient_light::shinombra_serial::ShinombraSerialConfig;
use ambient_light::wled_drgb::WledDrgbConfig;
use std::sync::atomic::{AtomicU8, Ordering};

fn table(entries: Vec<(&str, ConfigValue)>) -> ConfigTable {
    ConfigTable { entries: entries.into_iter().map(|(k, v)| (k.to_string(), v)).collect() }
}

fn lookup<'a>(t: &'a ConfigTable, path: &[&str]) -> Option<&'a ConfigValue> {
    let (first, rest) = path.split_first()?;
    let (_, v) = t.entries.iter().find(|(k, _)| k == first)?;
    if rest.is_empty() {
        return Some(v);
    }
    match v {
        ConfigValue::Table(inner) => lookup(inner, rest),
        ConfigValue::Leaf(_) => None,
    }
}

fn leaf_at(t: &ConfigTable, path: &[&str]) -> Option<u64> {
    match lookup(t, path) {
        Some(ConfigValue::Leaf(id)) => Some(*id),
        _ => None,
    }
}

#[test]
fn merge_overlay_into_nested_tables() {
    let mut base = table(vec![
        ("a", ConfigValue::Leaf(1)),
        ("t", ConfigValue::Table(table(vec![("x", ConfigValue::Leaf(2)), ("y", ConfigValue::Leaf(3))]))),
        ("u", ConfigValue::Leaf(5)),
    ]);
    let overlay = table(vec![
        ("t", ConfigValue::Table(table(vec![("y", ConfigValue::Leaf(9)), ("z", ConfigValue::Leaf(10))]))),
        ("b", ConfigValue::Leaf(4)),
        ("u", ConfigValue::Table(table(vec![("k", ConfigValue::Leaf(6))]))),
    ]);
    merge_toml_tables(&mut base, overlay);
    assert_eq!(leaf_at(&base, &["a"]), Some(1));
    assert_eq!(leaf_at(&base, &["t", "x"]), Some(2));
    assert_eq!(leaf_at(&base, &["t", "y"]), Some(9));
    assert_eq!(leaf_at(&base, &["t", "z"]), Some(10));
    assert_eq!(leaf_at(&base, &["b"]), Some(4));
    assert_eq!(leaf_at(&base, &["u", "k"]), Some(6));
    assert_eq!(base.entries.len(), 4);
    let t = match lookup(&base, &["t"]) {
        Some(ConfigValue::Table(t)) => t,
        _ => panic!("t must stay a table"),
    };
    assert_eq!(t.entries.len(), 3);
}

#[test]
fn merge_leaf_replaces_table() {
    let mut base = table(vec![(
        "s",
        ConfigValue::Table(table(vec![("x", ConfigValue::Leaf(1))])),
    )]);
    merge_toml_tables(&mut base, table(vec![("s", ConfigValue::Leaf(7))]));
    assert_eq!(leaf_at(&base, &["s"]), Some(7));
    assert_eq!(lookup(&base, &["s", "x"]).is_none(), true);
    merge_toml_tables(&mut base, table(vec![]));
    assert_eq!(leaf_at(&base, &["s"]), Some(7));
    assert_eq!(base.entries.len(), 1);
}

#[test]
fn spa_video_format_numbers() {
    assert_eq!(SpaVideoFormat::try_from(0), Ok(SpaVideoFormat::UNKNOWN));
    assert_eq!(SpaVideoFormat::try_from(7), Ok(SpaVideoFormat::RGBx));
    assert_eq!(SpaVideoFormat::try_from(14), Ok(SpaVideoFormat::ABGR));
    assert_eq!(SpaVideoFormat::try_from(79), Ok(SpaVideoFormat::RGBA_F32));
    assert_eq!(SpaVideoFormat::try_from(87), Ok(SpaVideoFormat::BGRA_102LE));
    assert_eq!(SpaVideoFormat::try_from(88), Err(88));
    assert_eq!(SpaVideoFormat::try_from(u32::MAX), Err(u32::MAX));
}

#[test]
fn capture_config_starts_zeroed() {
    let c = CaptureConfig::new();
    assert_eq!((c.screen_width, c.screen_height, c.video_format), (0, 0, 0));
}

#[test]
fn tilde_expansion() {
    let home = Some("/home/u");
    assert_eq!(expand_tilde("~", home), "/home/u");
    assert_eq!(expand_tilde("~/a/b", home), "/home/u/a/b");
    assert_eq!(expand_tilde("~/~/x", home), "/home/u/~/x");
    assert_eq!(expand_tilde("~bob/a", home), "~bob/a");
    assert_eq!(expand_tilde("/x", home), "/x");
    assert_eq!(expand_tilde("~//etc", home), "/etc");
    assert_eq!(expand_tilde("~x", home), "~x");
    assert_eq!(expand_tilde("a/~/b", home), "a/~/b");
    assert_eq!(expand_tilde("~/a", None), "~/a");
    assert_eq!(expand_tilde("~/a", Some("/home/u/")), "/home/u/a");
    assert_eq!(expand_tilde("~/", home), "/home/u/");
}

#[test]
fn path_resolution() {
    assert_eq!(resolve_path("/base", "rel/x", None), "/base/rel/x");
    assert_eq!(resolve_path("/base/", "rel", None), "/base/rel");
    assert_eq!(resolve_path("/base", "/abs", None), "/abs");
    assert_eq!(resolve_path("base", "~/x", Some("/h")), "/h/x");
    assert_eq!(resolve_path("/b", "~/x", Some("h")), "/b/h/x");
    assert_eq!(resolve_path("/b", "", None), "/b/");
    assert_eq!(join_path("", "x"), "x");
}

fn strings(v: &[&str]) -> Vec<String> {
    v.iter().map(|s| s.to_string()).collect()
}

#[test]
fn cli_defaults() {
    let r = CLIFlagsManager::parse(&vec![]);
    assert!(r.ignored.is_empty());
    assert_eq!(
        r.action,
        CliAction::Run(CLIFlags { manifest_path: "config.toml".to_string(), reset_pipewire_token: false })
    );
}

#[test]
fn cli_flags_and_unknown_arguments() {
    let r = CLIFlagsManager::parse(&strings(&["-p", "m.toml", "junk", "--reset", "--path", "n.toml"]));
    assert_eq!(r.ignored, strings(&["junk"]));
    assert_eq!(
        r.action,
        CliAction::Run(CLIFlags { manifest_path: "n.toml".to_string(), reset_pipewire_token: true })
    );
}

#[test]
fn cli_help_and_missing_path() {
    let r = CLIFlagsManager::parse(&strings(&["x", "-h", "-p"]));
    assert_eq!(r.ignored, strings(&["x"]));
    assert_eq!(r.action, CliAction::ShowHelp);
    let r = CLIFlagsManager::parse(&strings(&["-r", "--path"]));
    assert_eq!(r.action, CliAction::MissingPath);
    let r = CLIFlagsManager::parse(&strings(&["--help"]));
    assert_eq!(r.action, CliAction::ShowHelp);
}

#[test]
fn validation_texts() {
    let e = ValidationError::InvalidValue { section: "s", field: "f", message: "m".to_string() };
    assert_eq!(e.to_string(), "Critical error in [s] f: m");
    let e = ValidationError::RequiredField { section: "s", field: "f" };
    assert_eq!(e.to_string(), "Missing required field 'f' in section [s]");
    let e = ValidationError::StructValue { section: "s", message: "m".to_string() };
    assert_eq!(e.to_string(), "Logic error in section [s]: m");
    let w = ValidationWarning::InvalidValue { section: "s", field: "f", message: "m".to_string() };
    assert_eq!(w.to_string(), "In [s] 'f' has invalid value: m");
    let w = ValidationWarning::StructValue { section: "s", message: "m".to_string() };
    assert_eq!(w.to_string(), "In [s] m");
}

#[test]
fn log_lines_and_threshold() {
    assert_eq!(format_log_line(LogLevel::Warn, "Mod", "msg"), "<4>\x1b[33m [WARN ] \x1b[0mMod: msg");
    assert_eq!(format_log_line(LogLevel::Error, "M", "e"), "<3>\x1b[31m [ERROR] \x1b[0mM: e");
    assert_eq!(format_log_line(LogLevel::Info, "M", "i"), "<6>\x1b[32m [INFO ] \x1b[0mM: i");
    assert_eq!(format_log_line(LogLevel::Debug, "M", "d"), "<7>\x1b[36m [DEBUG] \x1b[0mM: d");
    assert!(should_log(LogLevel::Warn, LogLevel::Warn.code()));
    assert!(!should_log(LogLevel::Info, LogLevel::Warn.code()));
    assert!(!should_log(LogLevel::Error, LogLevel::Off.code()));
    let threshold = AtomicU8::new(2);
    set_max_log_level(&threshold, LogLevel::Debug);
    assert_eq!(threshold.load(Ordering::SeqCst), 4);
}

fn warning(msg: &str) -> ValidationWarning {
    ValidationWarning::StructValue { section: "sec", message: msg.to_string() }
}

#[test]
fn warnings_reported_under_threshold() {
    let lines = warn_validate(vec![warning("a"), warning("b")], "Mod", 2);
    assert_eq!(lines, vec!["<4>\x1b[33m [WARN ] \x1b[0mMod: In [sec] a", "<4>\x1b[33m [WARN ] \x1b[0mMod: In [sec] b"]);
    assert!(warn_validate(vec![warning("a")], "Mod", 1).is_empty());
}

#[test]
fn validation_stops_at_first_error() {
    let err = ValidationError::RequiredField { section: "s", field: "f" };
    let report = validate_configs(
        vec![Ok(vec![warning("a")]), Err(err), Ok(vec![warning("never")])],
        "Core",
        2,
    );
    assert!(report.exit);
    assert_eq!(
        report.lines,
        vec![
            "<4>\x1b[33m [WARN ] \x1b[0mCore: In [sec] a".to_string(),
            "<3>\x1b[31m [ERROR] \x1b[0mCore: Missing required field 'f' in section [s]".to_string(),
        ]
    );
    let report = validate_configs(vec![Ok(vec![]), Ok(vec![warning("w")])], "Core", 0);
    assert!(!report.exit);
    assert!(report.lines.is_empty());
    let one = validate_config(Err(ValidationError::StructValue { section: "s", message: "m".to_string() }), "C", 0);
    assert!(one.exit);
    assert!(one.lines.is_empty());
}

fn serial(path: &str, baud: u32) -> ShinombraSerialConfig {
    ShinombraSerialConfig { port_path: path.to_string(), baud_rate: baud }
}

fn invalid(section: &'static str, field: &'static str, message: &str) -> ValidationError {
    ValidationError::InvalidValue { section, field, message: message.to_string() }
}

#[test]
fn serial_settings_validation() {
    let s = "serial_driver_config";
    assert_eq!(
        serial(" \t", 115200).validate_with(true),
        Err(invalid(s, "port_path", "Path to serial device cannot be empty (e.g., /dev/ttyUSB0)"))
    );
    assert_eq!(
        serial("/dev/none", 115200).validate_with(false),
        Err(invalid(s, "port_path", "Device path /dev/none does not exist"))
    );
    assert_eq!(
        serial("/dev/x", 0).validate_with(true),
        Err(invalid(s, "baud_rate", "Baud rate must be greater than 0. Standard value is usually 115200"))
    );
    assert_eq!(serial("/dev/x", 115200).validate_with(true), Ok(vec![]));
    assert_eq!(
        serial("/dev/x", 1234).validate_with(true),
        Ok(vec![ValidationWarning::InvalidValue {
            section: s,
            field: "baud_rate",
            message: "Non-standard baud rate detected: 1234. Ensure your hardware supports it.".to_string(),
        }])
    );
    assert_eq!(serial("/", 9600).validate(), Ok(vec![]));
    assert!(serial("/surely/not/a/device/path/here", 9600).validate().is_err());
}

#[test]
fn wled_settings_validation() {
    let cfg = WledDrgbConfig { ip: "10.0.0.5".to_string(), port: None, timeout: Some(0), max_fps: Some(10) };
    assert_eq!(cfg.address_text(), "10.0.0.5:21324");
    assert_eq!(
        cfg.validate_with(Err("no such host".to_string())),
        Err(invalid("d_r_g_b_config", "ip", "Ip can not be reached: no such host."))
    );
    let w = cfg.validate_with(Ok(())).unwrap();
    assert_eq!(
        w,
        vec![
            ValidationWarning::InvalidValue {
                section: "d_r_g_b_config",
                field: "timeout",
                message: "With zero timeout led can work with errors.".to_string(),
            },
            ValidationWarning::InvalidValue {
                section: "d_r_g_b_config",
                field: "max_fps",
                message: "With small FPS led can work kind of strange.".to_string(),
            },
        ]
    );
    let ok = WledDrgbConfig { ip: "h".to_string(), port: Some(80), timeout: None, max_fps: None };
    assert_eq!(ok.validate_with(Ok(())), Ok(vec![]));
    assert_eq!(ok.address_text(), "h:80");
}

#[test]
fn ddp_settings_validation() {
    let cfg = DdpConfig { ip: "led".to_string(), port: None, mtu: Some(1400), timeout: None };
    assert_eq!(cfg.address_text(), "led:4048");
    assert_eq!(cfg.validation_address_text(), "led:21324");
    assert_eq!(
        cfg.validate_with(Ok(())),
        Ok(vec![ValidationWarning::InvalidValue {
            section: "ddp_config",
            field: "mtu",
            message: "Setting another MTU can break protocol work. Be careful with it.".to_string(),
        }])
    );
    assert_eq!(
        cfg.validate_with(Err("e".to_string())),
        Err(invalid("ddp_config", "ip", "Ip can not be reached: e."))
    );
    let plain = DdpConfig { ip: "led".to_string(), port: Some(1), mtu: None, timeout: Some(3) };
    assert_eq!(plain.validate_with(Ok(())), Ok(vec![]));
}

#[test]
fn manifest_names_config_then_overlays() {
    let manifest = Manifest {
        paths: Some(Paths {
            config: "main.toml".to_string(),
            overlays: vec!["over/a.toml".to_string(), "/etc/b.toml".to_string()],
        }),
        daemon_settings: None,
    };
    assert_eq!(
        config_sources(&manifest, "/home/u/cfg"),
        Some(vec![
            "/home/u/cfg/main.toml".to_string(),
            "/home/u/cfg/over/a.toml".to_string(),
            "/etc/b.toml".to_string(),
        ])
    );
    assert_eq!(config_sources(&manifest, "/"), Some(vec![
        "/main.toml".to_string(),
        "/over/a.toml".to_string(),
        "/etc/b.toml".to_string(),
    ]));
    let no_paths = Manifest { paths: None, daemon_settings: None };
    assert_eq!(config_sources(&no_paths, "/home/u/cfg"), None);
}

#[test]
fn configuration_settings_win_over_manifest() {
    let from_manifest = Some(DaemonSettings { log_level: LogLevel::Debug });
    let from_config = Some(DaemonSettings { log_level: LogLevel::Error });
    assert_eq!(effective_daemon_settings(from_manifest, from_config), from_config);
    assert_eq!(effective_daemon_settings(from_manifest, None), from_manifest);
    assert_eq!(effective_daemon_settings(None, None), None);
}

#[test]
fn flags_default_to_off() {
    assert_eq!(get_flags(None), Flags { pipewire_conversion: false, save_token: false });
    let set = Flags { pipewire_conversion: true, save_token: false };
    assert_eq!(get_flags(Some(set)), set);
    assert_eq!(Flags::default(), Flags { pipewire_conversion: false, save_token: false });
}

#[test]
fn validation_run_stops_before_later_sections() {
    let sections: Vec<Box<dyn Fn() -> Result<Vec<ValidationWarning>, ValidationError>>> = vec![
        Box::new(|| Ok(vec![warning("a")])),
        Box::new(|| Err(ValidationError::RequiredField { section: "s", field: "f" })),
        Box::new(|| panic!("a section after the first error is never validated")),
    ];
    let mut run = ValidationRun::new();
    for section in sections.iter() {
        if !run.record(section(), "Core", 2) {
            break;
        }
    }
    assert!(run.exit);
    assert_eq!(
        run.lines,
        vec![
            "<4>\x1b[33m [WARN ] \x1b[0mCore: In [sec] a".to_string(),
            "<3>\x1b[31m [ERROR] \x1b[0mCore: Missing required field 'f' in section [s]".to_string(),
        ]
    );
    let mut quiet = ValidationRun::new();
    assert!(quiet.record(Ok(vec![warning("w")]), "Core", 1));
    assert!(!quiet.exit);
    assert!(quiet.lines.is_empty());
}

#[test]
fn required_sections_are_checked() {
    let section = || ConfigValue::Table(table(vec![]));
    let full = table(vec![
        ("settings", section()),
        ("screen_reading_config", section()),
        ("led_position_config", section()),
        ("screen_config", section()),
        ("frame_connection_config", section()),
        ("extra", ConfigValue::Leaf(0)),
    ]);
    assert!(has_required_sections(&full));
    let missing = table(vec![
        ("settings", section()),
        ("screen_reading_config", section()),
        ("led_position_config", section()),
        ("screen_config", section()),
    ]);
    assert!(!has_required_sections(&missing));
    let leaf = table(vec![
        ("settings", ConfigValue::Leaf(1)),
        ("screen_reading_config", section()),
        ("led_position_config", section()),
        ("screen_config", section()),
        ("frame_connection_config", section()),
    ]);
    assert!(!has_required_sections(&leaf));
}

#[test]
fn overlays_are_laid_in_order() {
    let mut base = table(vec![("a", ConfigValue::Leaf(0)), ("t", ConfigValue::Table(table(vec![("x", ConfigValue::Leaf(1))])))]);
    let overlays = vec![
        table(vec![("a", ConfigValue::Leaf(2)), ("b", ConfigValue::Leaf(5))]),
        table(vec![("a", ConfigValue::Leaf(3)), ("t", ConfigValue::Table(table(vec![("y", ConfigValue::Leaf(4))])))]),
    ];
    merge_overlays(&mut base, overlays);
    assert!(matches!(lookup(&base, &["a"]), Some(ConfigValue::Leaf(3))));
    assert!(matches!(lookup(&base, &["b"]), Some(ConfigValue::Leaf(5))));
    assert!(matches!(lookup(&base, &["t", "x"]), Some(ConfigValue::Leaf(1))));
    assert!(matches!(lookup(&base, &["t", "y"]), Some(ConfigValue::Leaf(4))));
    let mut unchanged = table(vec![("a", ConfigValue::Leaf(7))]);
    merge_overlays(&mut unchanged, vec![]);
    assert!(matches!(lookup(&unchanged, &["a"]), Some(ConfigValue::Leaf(7))));
}
