use pactrack::config::{
    default_config_path, load_config, AurHelperMode, CliOverrides, EffectiveConfig, FileConfig,
};

#[test]
fn config_merging_precedence_defaults_file_cli() {
    let from_file = FileConfig {
        poll_minutes: Some(45),
        enable_aur: Some(true),
        notify_on_change: Some(false),
        aur_helper: Some(AurHelperMode::Paru),
        ..FileConfig::default()
    };

    let cli = CliOverrides { poll_minutes: Some(5), no_aur: true };

    let cfg = load_config(from_file, &cli);
    assert_eq!(cfg.poll_minutes, 5);
    assert!(!cfg.enable_aur);
    assert!(!cfg.notify_on_change);
    assert_eq!(cfg.aur_helper, AurHelperMode::Paru);
}

#[test]
fn missing_file_uses_defaults() {
    let cfg = load_config(FileConfig::default(), &CliOverrides::default());

    assert_eq!(cfg.poll_minutes, 30);
    assert!(cfg.notify_on_change);
    assert!(cfg.enable_aur);
    assert_eq!(cfg.aur_helper, AurHelperMode::Auto);
}

#[test]
fn defaults_say_auto_everywhere() {
    let cfg = EffectiveConfig::default();
    assert_eq!(cfg.poll_minutes, 30);
    assert_eq!(cfg.terminal, "auto");
    assert_eq!(cfg.official_check_cmd, "auto");
    assert_eq!(cfg.upgrade_cmd, "auto");
    assert_eq!(AurHelperMode::default(), AurHelperMode::Auto);
}

#[test]
fn file_settings_replace_defaults() {
    let from_file = FileConfig {
        terminal: Some("kitty --single-instance".to_string()),
        official_check_cmd: Some("checkupdates".to_string()),
        upgrade_cmd: Some("topgrade".to_string()),
        aur_helper: Some(AurHelperMode::Off),
        enable_aur: Some(false),
        ..FileConfig::default()
    };
    let cfg = load_config(from_file, &CliOverrides::default());
    assert_eq!(cfg.terminal, "kitty --single-instance");
    assert_eq!(cfg.official_check_cmd, "checkupdates");
    assert_eq!(cfg.upgrade_cmd, "topgrade");
    assert_eq!(cfg.aur_helper, AurHelperMode::Off);
    assert!(!cfg.enable_aur);
    assert_eq!(cfg.poll_minutes, 30);
}

#[test]
fn poll_minutes_are_at_least_one() {
    let from_file = FileConfig { poll_minutes: Some(0), ..FileConfig::default() };
    let cfg = load_config(from_file, &CliOverrides::default());
    assert_eq!(cfg.poll_minutes, 1);

    let cli = CliOverrides { poll_minutes: Some(0), no_aur: false };
    let from_file = FileConfig { poll_minutes: Some(45), ..FileConfig::default() };
    let cfg = load_config(from_file, &cli);
    assert_eq!(cfg.poll_minutes, 1);
    assert!(cfg.enable_aur);
}

#[test]
fn default_config_path_lies_under_the_config_dir() {
    assert_eq!(default_config_path(Some("/home/u/.config")), "/home/u/.config/pactrack/config.toml");
    assert_eq!(default_config_path(Some("/home/u/.config/")), "/home/u/.config/pactrack/config.toml");
    assert_eq!(default_config_path(None), "./pactrack/config.toml");
}
