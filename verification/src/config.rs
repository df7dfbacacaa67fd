use vstd::prelude::*;
use std::path::PathBuf;
use directories::ProjectDirs;
use crate::float_bits::{F32Bits, F64Bits, f32_clamped, f32_is_nan, f32_lt};
use crate::identity::{APP_NAME, APP_ORGANIZATION, APP_QUALIFIER};
use crate::platform::{
    config_dir_of, join_path, path_join, project_config_dir, project_dirs, project_path_for,
    project_path_of,
};

verus! {

/// Text size preset of the status surfaces.
#[derive(Debug, Clone, Copy, PartialEq, Eq, Structural)]
pub enum FontPreset {
    Small,
    Medium,
    Large,
    Custom,
}

impl Default for FontPreset {
    fn default() -> (r: Self)
        ensures
            r == FontPreset::Small,
    {
        FontPreset::Small
    }
}

/// Smallest font size, in pixels, that a custom size is raised to.
pub const MIN_FONT_PX: u8 = 12;

/// Largest font size, in pixels, that a custom size is lowered to.
pub const MAX_FONT_PX: u8 = 28;

/// `v` limited to the range `lo..=hi` (with `lo <= hi`).
pub open spec fn clamp_int(v: int, lo: int, hi: int) -> int {
    if v < lo {
        lo
    } else if v > hi {
        hi
    } else {
        v
    }
}

/// Font settings of the status surfaces.
#[derive(Debug, Clone, Copy, PartialEq, Eq, Structural)]
pub struct FontConfig {
    pub preset: FontPreset,
    pub custom_px: u8,
}

impl FontConfig {
    /// Pixel size that a preset stands for.
    pub open spec fn spec_effective_px(self) -> int {
        match self.preset {
            FontPreset::Small => 12,
            FontPreset::Medium => 14,
            FontPreset::Large => 16,
            FontPreset::Custom => clamp_int(self.custom_px as int, MIN_FONT_PX as int, MAX_FONT_PX as int),
        }
    }

    /// The font size in pixels that the settings stand for: the preset's own
    /// size, or for a custom size the requested one kept within 12..=28.
    pub fn effective_px(&self) -> (px: u8)
        ensures
            px as int == self.spec_effective_px(),
            MIN_FONT_PX <= px <= MAX_FONT_PX,
    {
        match self.preset {
            FontPreset::Small => 12,
            FontPreset::Medium => 14,
            FontPreset::Large => 16,
            FontPreset::Custom => clamp_u8(self.custom_px, MIN_FONT_PX, MAX_FONT_PX),
        }
    }
}

/// `v` limited to `lo..=hi`.
pub fn clamp_u8(v: u8, lo: u8, hi: u8) -> (r: u8)
    requires
        lo <= hi,
    ensures
        r as int == clamp_int(v as int, lo as int, hi as int),
{
    if v < lo {
        lo
    } else if v > hi {
        hi
    } else {
        v
    }
}

/// Version number written into every saved configuration.
pub const CONFIG_VERSION: u32 = 1;

/// The only refresh interval the application uses, in milliseconds.
pub const REFRESH_INTERVAL_MS: u64 = 1_000;

/// Lowest floating bar opacity kept by sanitising: binary32 `0.35`.
pub const MIN_OPACITY: u32 = 0x3eb3_3333;

/// Highest floating bar opacity kept by sanitising: binary32 `1.0`.
pub const MAX_OPACITY: u32 = 0x3f80_0000;

/// Default floating bar opacity: binary32 `0.92`.
pub const DEFAULT_OPACITY: u32 = 0x3f6b_851f;

impl Default for FontConfig {
    fn default() -> (r: Self)
        ensures
            r == (FontConfig { preset: FontPreset::Small, custom_px: 12 }),
    {
        FontConfig { preset: FontPreset::Small, custom_px: 12 }
    }
}

/// Colour theme of the user interface.
#[derive(Debug, Clone, Copy, PartialEq, Eq, Structural)]
pub enum ThemeMode {
    System,
    Dark,
    Light,
}

impl Default for ThemeMode {
    fn default() -> (r: Self)
        ensures
            r == ThemeMode::System,
    {
        ThemeMode::System
    }
}

/// Unit in which network speeds are shown.
#[derive(Debug, Clone, Copy, PartialEq, Eq, Structural)]
pub enum SpeedUnit {
    Auto,
    Kb,
    Mb,
}

impl Default for SpeedUnit {
    fn default() -> (r: Self)
        ensures
            r == SpeedUnit::Auto,
    {
        SpeedUnit::Auto
    }
}

/// Settings of the mini floating bar. `opacity` is a binary32 value and the
/// saved logical position `x`, `y` are binary64 values.
#[derive(Debug, Clone, Copy)]
pub struct FloatingBarConfig {
    pub enabled: bool,
    pub opacity: F32Bits,
    pub always_on_top: bool,
    pub lock_position: bool,
    pub click_through: bool,
    pub x: Option<F64Bits>,
    pub y: Option<F64Bits>,
}

impl FloatingBarConfig {
    /// The default floating bar settings.
    pub open spec fn spec_default() -> FloatingBarConfig {
        FloatingBarConfig {
            enabled: false,
            opacity: F32Bits(DEFAULT_OPACITY),
            always_on_top: true,
            lock_position: false,
            click_through: false,
            x: None,
            y: None,
        }
    }
}

impl Default for FloatingBarConfig {
    fn default() -> (r: Self)
        ensures
            r == FloatingBarConfig::spec_default(),
    {
        FloatingBarConfig {
            enabled: false,
            opacity: F32Bits(DEFAULT_OPACITY),
            always_on_top: true,
            lock_position: false,
            click_through: false,
            x: None,
            y: None,
        }
    }
}

/// The whole persisted configuration.
#[derive(Debug, Clone, Copy)]
pub struct AppConfig {
    pub version: u32,
    pub autostart: bool,
    pub refresh_interval_ms: u64,
    pub font: FontConfig,
    pub speed_unit: SpeedUnit,
    pub floating_bar: FloatingBarConfig,
    pub theme: ThemeMode,
    pub show_na: bool,
}

impl AppConfig {
    /// The default configuration.
    pub open spec fn spec_default() -> AppConfig {
        AppConfig {
            version: CONFIG_VERSION,
            autostart: false,
            refresh_interval_ms: REFRESH_INTERVAL_MS,
            font: FontConfig { preset: FontPreset::Small, custom_px: 12 },
            speed_unit: SpeedUnit::Auto,
            floating_bar: FloatingBarConfig::spec_default(),
            theme: ThemeMode::System,
            show_na: true,
        }
    }

    /// The configuration brought to the behaviour the application supports:
    /// current version, 1 s refresh, small font preset with the custom size
    /// kept within 12..=28, automatic speed units, `N/A` shown for missing
    /// values and the floating bar opacity kept within 0.35..=1.0. Autostart,
    /// theme and the other floating bar settings are kept.
    pub open spec fn spec_sanitized(self) -> AppConfig {
        AppConfig {
            version: CONFIG_VERSION,
            refresh_interval_ms: REFRESH_INTERVAL_MS,
            font: FontConfig {
                preset: FontPreset::Small,
                custom_px: clamp_int(self.font.custom_px as int, MIN_FONT_PX as int, MAX_FONT_PX as int) as u8,
            },
            speed_unit: SpeedUnit::Auto,
            show_na: true,
            floating_bar: FloatingBarConfig {
                opacity: F32Bits(f32_clamped(self.floating_bar.opacity.0, MIN_OPACITY, MAX_OPACITY)),
                ..self.floating_bar
            },
            ..self
        }
    }

    /// The configuration as sanitising leaves it (see `spec_sanitized`).
    pub fn sanitized(self) -> (r: Self)
        ensures
            r == self.spec_sanitized(),
    {
        let mut config = self;
        config.version = CONFIG_VERSION;
        config.refresh_interval_ms = REFRESH_INTERVAL_MS;
        config.font.preset = FontPreset::Small;
        config.font.custom_px = clamp_u8(config.font.custom_px, MIN_FONT_PX, MAX_FONT_PX);
        config.speed_unit = SpeedUnit::Auto;
        config.show_na = true;
        config.floating_bar.opacity = config.floating_bar.opacity.clamp(F32Bits(MIN_OPACITY), F32Bits(MAX_OPACITY));
        config
    }
}

impl Default for AppConfig {
    fn default() -> (r: Self)
        ensures
            r == AppConfig::spec_default(),
    {
        AppConfig {
            version: CONFIG_VERSION,
            autostart: false,
            refresh_interval_ms: REFRESH_INTERVAL_MS,
            font: FontConfig::default(),
            speed_unit: SpeedUnit::Auto,
            floating_bar: FloatingBarConfig::default(),
            theme: ThemeMode::System,
            show_na: true,
        }
    }
}

/// Sanitising twice gives what sanitising once gives.
pub proof fn lemma_sanitized_idempotent(config: AppConfig)
    ensures
        config.spec_sanitized().spec_sanitized() == config.spec_sanitized(),
{
}

/// The default configuration is left unchanged by sanitising.
pub proof fn lemma_default_is_sanitized()
    ensures
        AppConfig::spec_default().spec_sanitized() == AppConfig::spec_default(),
{
}

/// Whatever it is given, sanitising yields the supported behaviour: current
/// version, 1 s refresh, small preset whose effective size is 12 px, a custom
/// size within 12..=28, automatic units, `N/A` shown, and an opacity that is
/// NaN or within 0.35..=1.0.
pub proof fn lemma_sanitized_is_supported(config: AppConfig)
    ensures
        ({
            let s = config.spec_sanitized();
            &&& s.version == CONFIG_VERSION
            &&& s.refresh_interval_ms == REFRESH_INTERVAL_MS
            &&& s.font.preset == FontPreset::Small
            &&& s.font.spec_effective_px() == 12
            &&& MIN_FONT_PX <= s.font.custom_px <= MAX_FONT_PX
            &&& s.speed_unit == SpeedUnit::Auto
            &&& s.show_na
            &&& (f32_is_nan(s.floating_bar.opacity.0) || (
                !f32_lt(s.floating_bar.opacity.0, MIN_OPACITY)
                && !f32_lt(MAX_OPACITY, s.floating_bar.opacity.0)))
            &&& s.autostart == config.autostart
            &&& s.theme == config.theme
        }),
{
}

/// What loading the configuration file comes to: the configuration to use,
/// whether the unreadable file is to be copied aside, and whether the
/// defaults are to be written in its place.
#[derive(Debug, Clone, Copy)]
pub struct LoadPlan {
    pub config: AppConfig,
    pub back_up_file: bool,
    pub write_defaults: bool,
}

impl LoadPlan {
    /// The plan for a load that parsed `loaded` (`None` when the file could
    /// not be read or parsed) from a file that exists or not: a parsed
    /// configuration is used sanitised and nothing is written; otherwise the
    /// defaults are used and written, after copying an existing file aside.
    pub open spec fn spec_for(loaded: Option<AppConfig>, file_exists: bool) -> LoadPlan {
        match loaded {
            Some(config) => LoadPlan {
                config: config.spec_sanitized(),
                back_up_file: false,
                write_defaults: false,
            },
            None => LoadPlan {
                config: AppConfig::spec_default(),
                back_up_file: file_exists,
                write_defaults: true,
            },
        }
    }

    /// The plan for a load (see `spec_for`).
    pub fn for_load(loaded: Option<AppConfig>, file_exists: bool) -> (r: LoadPlan)
        ensures
            r == LoadPlan::spec_for(loaded, file_exists),
    {
        match loaded {
            Some(config) => LoadPlan {
                config: config.sanitized(),
                back_up_file: false,
                write_defaults: false,
            },
            None => LoadPlan {
                config: AppConfig::default(),
                back_up_file: file_exists,
                write_defaults: true,
            },
        }
    }
}

/// Sanitising keeps what the user chose: autostart, the theme, the custom
/// font size when it is within 12..=28, and every floating bar setting but
/// the opacity (whether it is enabled, on top, locked, clicked through, and
/// its saved position); the opacity is kept when it lies within
/// 0.35..=1.0 and moved to the nearer bound otherwise.
pub proof fn lemma_sanitized_keeps_user_choices(config: AppConfig)
    ensures
        config.spec_sanitized().autostart == config.autostart,
        config.spec_sanitized().theme == config.theme,
        config.spec_sanitized().floating_bar.enabled == config.floating_bar.enabled,
        config.spec_sanitized().floating_bar.always_on_top == config.floating_bar.always_on_top,
        config.spec_sanitized().floating_bar.lock_position == config.floating_bar.lock_position,
        config.spec_sanitized().floating_bar.click_through == config.floating_bar.click_through,
        config.spec_sanitized().floating_bar.x == config.floating_bar.x,
        config.spec_sanitized().floating_bar.y == config.floating_bar.y,
        12 <= config.font.custom_px <= 28 ==> config.spec_sanitized().font.custom_px
            == config.font.custom_px,
        config.font.custom_px < 12 ==> config.spec_sanitized().font.custom_px == 12,
        config.font.custom_px > 28 ==> config.spec_sanitized().font.custom_px == 28,
        !f32_lt(config.floating_bar.opacity.0, 0x3eb3_3333) && !f32_lt(
            0x3f80_0000,
            config.floating_bar.opacity.0,
        ) ==> config.spec_sanitized().floating_bar.opacity == config.floating_bar.opacity,
        f32_lt(config.floating_bar.opacity.0, 0x3eb3_3333) ==> config.spec_sanitized().floating_bar.opacity.0
            == 0x3eb3_3333,
{
}

/// Whatever the file held, loading yields a configuration that sanitising
/// leaves unchanged, and a file is only copied aside when it could not be
/// used.
pub proof fn lemma_load_plan_is_sanitized(loaded: Option<AppConfig>, file_exists: bool)
    ensures
        LoadPlan::spec_for(loaded, file_exists).config.spec_sanitized() == LoadPlan::spec_for(
            loaded,
            file_exists,
        ).config,
        LoadPlan::spec_for(loaded, file_exists).back_up_file ==> loaded is None && file_exists,
{
}

/// Failure to locate, read or parse the configuration file.
#[derive(Debug)]
pub enum ConfigError {
    /// No configuration directory is available for the current user.
    MissingConfigDir,
    /// The file could not be read or written.
    Read(std::io::Error),
    /// The file does not hold a configuration.
    Parse(serde_json::Error),
}

/// Where the configuration is stored.
#[derive(Debug)]
pub struct ConfigStore {
    path: PathBuf,
}

impl ConfigStore {
    /// The file the store reads and writes.
    pub closed spec fn spec_path(&self) -> PathBuf {
        self.path
    }

    /// The default location of the configuration file: `config.json` in
    /// the application's configuration directory, or `MissingConfigDir`
    /// when the platform reports no such directory. Whether the platform
    /// reports one depends on the environment; whatever it reports, a path
    /// that comes back is `config.json` in the configuration directory of
    /// this application's directories, those whose project path is derived
    /// from its identity (`config_file_in` states the path for a given
    /// answer of the platform).
    pub fn default_path() -> (r: Result<PathBuf, ConfigError>)
        ensures
            r is Err ==> r->Err_0 is MissingConfigDir,
            r matches Ok(p) ==> exists|d: ProjectDirs|
                project_path_of(d) == project_path_for(
                    APP_QUALIFIER@,
                    APP_ORGANIZATION@,
                    APP_NAME@,
                ) && p == #[trigger] path_join(config_dir_of(d), "config.json"@),
    {
        let dirs = project_dirs(APP_QUALIFIER, APP_ORGANIZATION, APP_NAME);
        let ghost reported = dirs;
        let r = Self::config_file_in(dirs);
        proof {
            if r is Ok {
                let d = reported->Some_0;
                assert(r->Ok_0 == path_join(config_dir_of(d), "config.json"@));
            }
        }
        r
    }

    /// `config.json` in the configuration directory of the application
    /// directories that the platform reported, or `MissingConfigDir` when
    /// it reported none.
    pub fn config_file_in(dirs: Option<ProjectDirs>) -> (r: Result<PathBuf, ConfigError>)
        ensures
            r is Err <==> dirs is None,
            r is Err ==> r->Err_0 is MissingConfigDir,
            dirs matches Some(d) ==> r matches Ok(p) && p == path_join(
                config_dir_of(d),
                "config.json"@,
            ),
    {
        match dirs {
            None => Err(ConfigError::MissingConfigDir),
            Some(dirs) => Ok(join_path(&project_config_dir(&dirs), "config.json")),
        }
    }

    /// A store at the default location (see `default_path`, whose outcome
    /// depends on the environment): a store that comes back reads and
    /// writes `config.json` in the configuration directory of some
    /// application directories.
    pub fn new_default() -> (r: Result<Self, ConfigError>)
        ensures
            r is Err ==> r->Err_0 is MissingConfigDir,
            r matches Ok(store) ==> exists|d: ProjectDirs|
                project_path_of(d) == project_path_for(
                    APP_QUALIFIER@,
                    APP_ORGANIZATION@,
                    APP_NAME@,
                ) && store.spec_path() == #[trigger] path_join(config_dir_of(d), "config.json"@),
    {
        let path = Self::default_path()?;
        Ok(ConfigStore { path })
    }

    /// A store at `path`.
    pub fn new(path: PathBuf) -> (r: Self)
        ensures
            r.spec_path() == path,
    {
        ConfigStore { path }
    }

    /// The file the store reads and writes.
    pub fn path(&self) -> (r: &PathBuf)
        ensures
            *r == self.spec_path(),
    {
        &self.path
    }
}

} // verus!
