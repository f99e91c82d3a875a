//! The settings of the tracker, and how the settings of the configuration
//! file and of the command line are laid over the defaults.

use crate::paths::{joined, path_join};
use vstd::prelude::*;
use vstd::string::StringExecFns;

verus! {

/// Which helper for the user repository to look for.
#[derive(Debug, Clone, Copy, PartialEq, Eq, Structural)]
pub enum AurHelperMode {
    Auto,
    Paru,
    Yay,
    /// Look for none.
    Off,
}

impl Default for AurHelperMode {
    fn default() -> (r: Self)
        ensures
            r == AurHelperMode::Auto,
    {
        AurHelperMode::Auto
    }
}

/// The settings in force.
#[derive(Debug)]
pub struct EffectiveConfig {
    pub poll_minutes: u64,
    pub notify_on_change: bool,
    pub enable_aur: bool,
    pub terminal: String,
    pub official_check_cmd: String,
    pub aur_helper: AurHelperMode,
    pub upgrade_cmd: String,
}

/// The settings in force as the contracts see them.
pub struct EffectiveConfigView {
    pub poll_minutes: u64,
    pub notify_on_change: bool,
    pub enable_aur: bool,
    pub terminal: Seq<char>,
    pub official_check_cmd: Seq<char>,
    pub aur_helper: AurHelperMode,
    pub upgrade_cmd: Seq<char>,
}

impl EffectiveConfigView {
    /// The settings where nothing else is said: a check every half hour,
    /// with notifications and the user repository, and `auto` for every
    /// command.
    pub open spec fn defaults() -> EffectiveConfigView {
        EffectiveConfigView {
            poll_minutes: 30,
            notify_on_change: true,
            enable_aur: true,
            terminal: "auto"@,
            official_check_cmd: "auto"@,
            aur_helper: AurHelperMode::Auto,
            upgrade_cmd: "auto"@,
        }
    }
}

impl View for EffectiveConfig {
    type V = EffectiveConfigView;

    open spec fn view(&self) -> EffectiveConfigView {
        EffectiveConfigView {
            poll_minutes: self.poll_minutes,
            notify_on_change: self.notify_on_change,
            enable_aur: self.enable_aur,
            terminal: self.terminal@,
            official_check_cmd: self.official_check_cmd@,
            aur_helper: self.aur_helper,
            upgrade_cmd: self.upgrade_cmd@,
        }
    }
}

impl Clone for EffectiveConfig {
    fn clone(&self) -> (r: Self)
        ensures
            r@ == self@,
    {
        EffectiveConfig {
            poll_minutes: self.poll_minutes,
            notify_on_change: self.notify_on_change,
            enable_aur: self.enable_aur,
            terminal: self.terminal.clone(),
            official_check_cmd: self.official_check_cmd.clone(),
            aur_helper: self.aur_helper,
            upgrade_cmd: self.upgrade_cmd.clone(),
        }
    }
}

impl Default for EffectiveConfig {
    fn default() -> (r: Self)
        ensures
            r@ == EffectiveConfigView::defaults(),
    {
        EffectiveConfig {
            poll_minutes: 30,
            notify_on_change: true,
            enable_aur: true,
            terminal: String::from_str("auto"),
            official_check_cmd: String::from_str("auto"),
            aur_helper: AurHelperMode::Auto,
            upgrade_cmd: String::from_str("auto"),
        }
    }
}

/// What the command line sets.
#[derive(Debug, Clone, Copy, PartialEq, Eq, Structural)]
pub struct CliOverrides {
    pub poll_minutes: Option<u64>,
    pub no_aur: bool,
}

impl Default for CliOverrides {
    fn default() -> (r: Self)
        ensures
            r == (CliOverrides { poll_minutes: None, no_aur: false }),
    {
        CliOverrides { poll_minutes: None, no_aur: false }
    }
}

/// What the configuration file sets: each setting is there or not.
#[derive(Debug)]
pub struct FileConfig {
    pub poll_minutes: Option<u64>,
    pub notify_on_change: Option<bool>,
    pub enable_aur: Option<bool>,
    pub terminal: Option<String>,
    pub official_check_cmd: Option<String>,
    pub aur_helper: Option<AurHelperMode>,
    pub upgrade_cmd: Option<String>,
}

/// The settings of the file as the contracts see them.
pub struct FileConfigView {
    pub poll_minutes: Option<u64>,
    pub notify_on_change: Option<bool>,
    pub enable_aur: Option<bool>,
    pub terminal: Option<Seq<char>>,
    pub official_check_cmd: Option<Seq<char>>,
    pub aur_helper: Option<AurHelperMode>,
    pub upgrade_cmd: Option<Seq<char>>,
}

impl View for FileConfig {
    type V = FileConfigView;

    open spec fn view(&self) -> FileConfigView {
        FileConfigView {
            poll_minutes: self.poll_minutes,
            notify_on_change: self.notify_on_change,
            enable_aur: self.enable_aur,
            terminal: self.terminal.deep_view(),
            official_check_cmd: self.official_check_cmd.deep_view(),
            aur_helper: self.aur_helper,
            upgrade_cmd: self.upgrade_cmd.deep_view(),
        }
    }
}

impl Default for FileConfig {
    fn default() -> (r: Self)
        ensures
            r@ == (FileConfigView {
                poll_minutes: None,
                notify_on_change: None,
                enable_aur: None,
                terminal: None,
                official_check_cmd: None,
                aur_helper: None,
                upgrade_cmd: None,
            }),
    {
        FileConfig {
            poll_minutes: None,
            notify_on_change: None,
            enable_aur: None,
            terminal: None,
            official_check_cmd: None,
            aur_helper: None,
            upgrade_cmd: None,
        }
    }
}

/// A number of minutes between two checks, made one where it is none.
pub open spec fn at_least_one(minutes: u64) -> u64 {
    if minutes < 1 {
        1
    } else {
        minutes
    }
}

/// The first of `first` and `second` that is there, else `fallback`.
pub open spec fn layered<T>(first: Option<T>, second: Option<T>, fallback: T) -> T {
    match first {
        Some(v) => v,
        None => match second {
            Some(v) => v,
            None => fallback,
        },
    }
}

/// The settings in force where the file sets `file` and the command line
/// sets `cli`: the command line goes before the file, and the file before
/// the defaults.
pub open spec fn merged(file: FileConfigView, cli: CliOverrides) -> EffectiveConfigView {
    let defaults = EffectiveConfigView::defaults();
    EffectiveConfigView {
        poll_minutes: at_least_one(
            layered(cli.poll_minutes, file.poll_minutes, defaults.poll_minutes),
        ),
        notify_on_change: layered(None, file.notify_on_change, defaults.notify_on_change),
        enable_aur: !cli.no_aur && layered(None, file.enable_aur, defaults.enable_aur),
        terminal: layered(None, file.terminal, defaults.terminal),
        official_check_cmd: layered(None, file.official_check_cmd, defaults.official_check_cmd),
        aur_helper: layered(None, file.aur_helper, defaults.aur_helper),
        upgrade_cmd: layered(None, file.upgrade_cmd, defaults.upgrade_cmd),
    }
}

/// Lays the settings of the configuration file over the defaults, and those
/// of the command line over both. The number of minutes between two checks
/// is at least one, wherever it comes from.
pub fn load_config(from_file: FileConfig, cli: &CliOverrides) -> (config: EffectiveConfig)
    ensures
        config@ == merged(from_file@, *cli),
{
    let mut config = EffectiveConfig::default();
    if let Some(v) = from_file.poll_minutes {
        config.poll_minutes = if v < 1 {
            1
        } else {
            v
        };
    }
    if let Some(v) = from_file.notify_on_change {
        config.notify_on_change = v;
    }
    if let Some(v) = from_file.enable_aur {
        config.enable_aur = v;
    }
    if let Some(v) = from_file.terminal {
        config.terminal = v;
    }
    if let Some(v) = from_file.official_check_cmd {
        config.official_check_cmd = v;
    }
    if let Some(v) = from_file.aur_helper {
        config.aur_helper = v;
    }
    if let Some(v) = from_file.upgrade_cmd {
        config.upgrade_cmd = v;
    }
    if let Some(v) = cli.poll_minutes {
        config.poll_minutes = if v < 1 {
            1
        } else {
            v
        };
    }
    if cli.no_aur {
        config.enable_aur = false;
    }
    config
}

/// Where the configuration file lies by default, given the user's
/// configuration directory, if that is known.
pub open spec fn default_path(config_dir: Option<Seq<char>>) -> Seq<char> {
    let base = match config_dir {
        Some(dir) => dir,
        None => "."@,
    };
    joined(joined(base, "pactrack"@), "config.toml"@)
}

/// Where the configuration file lies by default: `pactrack/config.toml`
/// under the user's configuration directory, or under the current directory
/// where none is known.
pub fn default_config_path(config_dir: Option<&str>) -> (path: String)
    ensures
        path@ == default_path(config_dir.deep_view()),
{
    let base = match config_dir {
        Some(dir) => dir,
        None => ".",
    };
    let dir = path_join(base, "pactrack");
    path_join(dir.as_str(), "config.toml")
}

} // verus!
