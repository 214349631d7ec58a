use crate::consts::DEFAULT_MONERO_ADDRESS;
use crate::internal_wallet::{generate_password, is_ascii_alphanumeric};
use crate::network::Network;
use crate::text::{clone_strings, str_eq};
use vstd::prelude::*;
use vstd::string::*;

verus! {

/// Name of the settings file inside the configuration directory.
pub const CONFIG_FILE_NAME: &'static str = "app_config.json";

/// The settings version that this library writes and migrates older files to.
pub const CURRENT_CONFIG_VERSION: u32 = 10;

/// Length of a generated anonymous id.
pub const ANON_ID_LENGTH: usize = 20;

/// A point in time, counted from the Unix epoch.
#[derive(Debug, Clone, Copy, PartialEq, Eq, Structural)]
pub struct Timestamp {
    pub secs_since_epoch: u64,
    pub nanos_since_epoch: u32,
}

/// Why a settings operation did not go through.
#[derive(Debug, Clone, Copy, PartialEq, Eq, Structural)]
pub enum ConfigError {
    /// No settings file has been chosen yet, so there is nowhere to write to.
    ConfigFileNotSet,
    /// The text names no mining mode.
    InvalidMode,
    /// The text names no display mode.
    InvalidDisplayMode,
}

#[derive(Debug, Clone, Copy, PartialEq, Eq, Structural)]
pub enum DisplayMode {
    System,
    Dark,
    Light,
}

impl DisplayMode {
    /// The name under which a display mode is stored.
    pub open spec fn name(self) -> Seq<char> {
        match self {
            DisplayMode::System => "system"@,
            DisplayMode::Dark => "dark"@,
            DisplayMode::Light => "light"@,
        }
    }

    /// The display mode that a name stands for, if any.
    pub open spec fn named(s: Seq<char>) -> Option<DisplayMode> {
        if s == "system"@ {
            Some(DisplayMode::System)
        } else if s == "dark"@ {
            Some(DisplayMode::Dark)
        } else if s == "light"@ {
            Some(DisplayMode::Light)
        } else {
            None
        }
    }

    pub fn from_str(s: &str) -> (r: Option<DisplayMode>)
        ensures
            r == Self::named(s@),
    {
        if str_eq(s, "system") {
            Some(DisplayMode::System)
        } else if str_eq(s, "dark") {
            Some(DisplayMode::Dark)
        } else if str_eq(s, "light") {
            Some(DisplayMode::Light)
        } else {
            None
        }
    }

    pub fn to_str(t: DisplayMode) -> (r: String)
        ensures
            r@ == t.name(),
    {
        match t {
            DisplayMode::System => "system".to_owned(),
            DisplayMode::Dark => "dark".to_owned(),
            DisplayMode::Light => "light".to_owned(),
        }
    }

    /// Every display mode is read back from its own name.
    pub proof fn lemma_name_round_trip(t: DisplayMode)
        ensures
            Self::named(t.name()) == Some(t),
    {
        reveal_strlit("system");
        reveal_strlit("dark");
        reveal_strlit("light");
        assert("system"@.len() == 6 && "dark"@.len() == 4 && "light"@.len() == 5);
    }
}

#[derive(Debug, Clone, Copy, PartialEq, Eq, Structural)]
pub enum MiningMode {
    Eco,
    Ludicrous,
    Custom,
}

impl MiningMode {
    /// The name under which a mining mode is stored.
    pub open spec fn name(self) -> Seq<char> {
        match self {
            MiningMode::Eco => "Eco"@,
            MiningMode::Ludicrous => "Ludicrous"@,
            MiningMode::Custom => "Custom"@,
        }
    }

    /// The mining mode that a name stands for, if any.
    pub open spec fn named(s: Seq<char>) -> Option<MiningMode> {
        if s == "Eco"@ {
            Some(MiningMode::Eco)
        } else if s == "Ludicrous"@ {
            Some(MiningMode::Ludicrous)
        } else if s == "Custom"@ {
            Some(MiningMode::Custom)
        } else {
            None
        }
    }

    pub fn from_str(s: &str) -> (r: Option<MiningMode>)
        ensures
            r == Self::named(s@),
    {
        if str_eq(s, "Eco") {
            Some(MiningMode::Eco)
        } else if str_eq(s, "Ludicrous") {
            Some(MiningMode::Ludicrous)
        } else if str_eq(s, "Custom") {
            Some(MiningMode::Custom)
        } else {
            None
        }
    }

    pub fn to_str(m: MiningMode) -> (r: String)
        ensures
            r@ == m.name(),
    {
        match m {
            MiningMode::Eco => "Eco".to_owned(),
            MiningMode::Ludicrous => "Ludicrous".to_owned(),
            MiningMode::Custom => "Custom".to_owned(),
        }
    }

    /// Every mining mode is read back from its own name.
    pub proof fn lemma_name_round_trip(m: MiningMode)
        ensures
            Self::named(m.name()) == Some(m),
    {
        reveal_strlit("Eco");
        reveal_strlit("Ludicrous");
        reveal_strlit("Custom");
        assert("Eco"@.len() == 3 && "Ludicrous"@.len() == 9 && "Custom"@.len() == 6);
    }
}

/// The list of merge-mining nodes that a fresh configuration starts with.
pub open spec fn is_default_monero_nodes(nodes: Seq<String>) -> bool {
    nodes.len() == 1 && nodes[0]@ == "https://xmr-01.tari.com"@
}

/// A well-formed anonymous id: twenty ASCII letters and digits.
pub open spec fn is_anon_id(id: Seq<char>) -> bool {
    id.len() == ANON_ID_LENGTH && forall|i: int|
        0 <= i < id.len() ==> is_ascii_alphanumeric(#[trigger] id[i])
}

fn default_version() -> (r: u32)
    ensures
        r == CURRENT_CONFIG_VERSION,
{
    CURRENT_CONFIG_VERSION
}

fn default_mode() -> (r: String)
    ensures
        r@ == MiningMode::Eco.name(),
{
    "Eco".to_owned()
}

fn default_display_mode() -> (r: String)
    ensures
        r@ == DisplayMode::Light.name(),
{
    "light".to_owned()
}

fn default_anon_id() -> (r: String)
    ensures
        is_anon_id(r@),
{
    generate_password(ANON_ID_LENGTH)
}

fn default_system_time() -> (r: Timestamp)
    ensures
        r == (Timestamp { secs_since_epoch: 0, nanos_since_epoch: 0 }),
{
    Timestamp { secs_since_epoch: 0, nanos_since_epoch: 0 }
}

fn default_monero_address() -> (r: String)
    ensures
        r@ == DEFAULT_MONERO_ADDRESS@,
{
    DEFAULT_MONERO_ADDRESS.to_owned()
}

fn default_application_language() -> (r: String)
    ensures
        r@ == "en"@,
{
    "en".to_owned()
}

fn default_monero_nodes() -> (r: Vec<String>)
    ensures
        is_default_monero_nodes(r@),
{
    let mut nodes: Vec<String> = Vec::new();
    nodes.push("https://xmr-01.tari.com".to_owned());
    nodes
}

/// The settings as they stand in the settings file: modes by name, everything
/// else as it is.
#[derive(Debug, Clone)]
pub struct AppConfigFromFile {
    pub version: u32,
    pub mode: String,
    pub display_mode: String,
    pub auto_mining: bool,
    pub mine_on_app_start: bool,
    pub p2pool_enabled: bool,
    pub last_binaries_update_timestamp: Timestamp,
    pub allow_telemetry: bool,
    pub anon_id: String,
    pub monero_address: String,
    pub gpu_mining_enabled: bool,
    pub cpu_mining_enabled: bool,
    pub has_system_language_been_proposed: bool,
    pub should_always_use_system_language: bool,
    pub should_auto_launch: bool,
    pub application_language: String,
    pub airdrop_ui_enabled: bool,
    pub use_tor: bool,
    pub paper_wallet_enabled: bool,
    pub reset_earnings: bool,
    pub eco_mode_cpu_threads: Option<isize>,
    pub ludicrous_mode_cpu_threads: Option<isize>,
    pub eco_mode_cpu_options: Vec<String>,
    pub ludicrous_mode_cpu_options: Vec<String>,
    pub custom_mode_cpu_options: Vec<String>,
    pub mmproxy_use_monero_fail: bool,
    pub mmproxy_monero_nodes: Vec<String>,
    pub custom_max_cpu_usage: Option<isize>,
    pub custom_max_gpu_usage: Option<isize>,
    pub auto_update: bool,
    pub custom_power_levels_enabled: bool,
    pub sharing_enabled: bool,
}

impl AppConfigFromFile {
    /// What a settings file holds when every field is missing from it.
    pub open spec fn is_default(self) -> bool {
        &&& self.version == CURRENT_CONFIG_VERSION
        &&& self.mode@ == MiningMode::Eco.name()
        &&& self.display_mode@ == DisplayMode::Light.name()
        &&& self.auto_mining
        &&& self.mine_on_app_start
        &&& self.p2pool_enabled
        &&& self.last_binaries_update_timestamp == (Timestamp {
            secs_since_epoch: 0,
            nanos_since_epoch: 0,
        })
        &&& !self.allow_telemetry
        &&& is_anon_id(self.anon_id@)
        &&& self.monero_address@ == DEFAULT_MONERO_ADDRESS@
        &&& self.gpu_mining_enabled
        &&& self.cpu_mining_enabled
        &&& !self.has_system_language_been_proposed
        &&& !self.should_always_use_system_language
        &&& !self.should_auto_launch
        &&& self.application_language@ == "en"@
        &&& self.airdrop_ui_enabled
        &&& self.use_tor
        &&& !self.paper_wallet_enabled
        &&& !self.reset_earnings
        &&& self.eco_mode_cpu_threads.is_none()
        &&& self.ludicrous_mode_cpu_threads.is_none()
        &&& self.eco_mode_cpu_options@.len() == 0
        &&& self.ludicrous_mode_cpu_options@.len() == 0
        &&& self.custom_mode_cpu_options@.len() == 0
        &&& !self.mmproxy_use_monero_fail
        &&& is_default_monero_nodes(self.mmproxy_monero_nodes@)
        &&& self.custom_max_cpu_usage.is_none()
        &&& self.custom_max_gpu_usage.is_none()
        &&& self.auto_update
        &&& self.custom_power_levels_enabled
        &&& self.sharing_enabled
    }

    /// Whether this file form says of every setting what `config` holds.
    pub open spec fn mirrors(self, config: AppConfig) -> bool {
        &&& self.version == config.config_version
        &&& self.mode@ == config.mode.name()
        &&& self.display_mode@ == config.display_mode.name()
        &&& self.auto_mining == config.auto_mining
        &&& self.mine_on_app_start == config.mine_on_app_start
        &&& self.p2pool_enabled == config.p2pool_enabled
        &&& self.last_binaries_update_timestamp == config.last_binaries_update_timestamp
        &&& self.allow_telemetry == config.allow_telemetry
        &&& self.anon_id@ == config.anon_id@
        &&& self.monero_address@ == config.monero_address@
        &&& self.gpu_mining_enabled == config.gpu_mining_enabled
        &&& self.cpu_mining_enabled == config.cpu_mining_enabled
        &&& self.has_system_language_been_proposed == config.has_system_language_been_proposed
        &&& self.should_always_use_system_language == config.should_always_use_system_language
        &&& self.should_auto_launch == config.should_auto_launch
        &&& self.application_language@ == config.application_language@
        &&& self.airdrop_ui_enabled == config.airdrop_ui_enabled
        &&& self.use_tor == config.use_tor
        &&& self.paper_wallet_enabled == config.paper_wallet_enabled
        &&& self.reset_earnings == config.reset_earnings
        &&& self.eco_mode_cpu_threads == config.eco_mode_cpu_threads
        &&& self.ludicrous_mode_cpu_threads == config.ludicrous_mode_cpu_threads
        &&& self.eco_mode_cpu_options@ == config.eco_mode_cpu_options@
        &&& self.ludicrous_mode_cpu_options@ == config.ludicrous_mode_cpu_options@
        &&& self.custom_mode_cpu_options@ == config.custom_mode_cpu_options@
        &&& self.mmproxy_use_monero_fail == config.mmproxy_use_monero_fail
        &&& self.mmproxy_monero_nodes@ == config.mmproxy_monero_nodes@
        &&& self.custom_max_cpu_usage == config.custom_max_cpu_usage
        &&& self.custom_max_gpu_usage == config.custom_max_gpu_usage
        &&& self.auto_update == config.auto_update
        &&& self.custom_power_levels_enabled == config.custom_power_levels_enabled
        &&& self.sharing_enabled == config.sharing_enabled
    }
}

impl Default for AppConfigFromFile {
    fn default() -> (r: Self)
        ensures
            r.is_default(),
    {
        Self {
            version: default_version(),
            mode: default_mode(),
            display_mode: default_display_mode(),
            auto_mining: true,
            mine_on_app_start: true,
            p2pool_enabled: true,
            last_binaries_update_timestamp: default_system_time(),
            allow_telemetry: false,
            anon_id: default_anon_id(),
            monero_address: default_monero_address(),
            gpu_mining_enabled: true,
            cpu_mining_enabled: true,
            has_system_language_been_proposed: false,
            should_always_use_system_language: false,
            should_auto_launch: false,
            application_language: default_application_language(),
            custom_max_cpu_usage: None,
            custom_max_gpu_usage: None,
            airdrop_ui_enabled: true,
            paper_wallet_enabled: false,
            use_tor: true,
            eco_mode_cpu_options: Vec::new(),
            ludicrous_mode_cpu_options: Vec::new(),
            custom_mode_cpu_options: Vec::new(),
            eco_mode_cpu_threads: None,
            ludicrous_mode_cpu_threads: None,
            mmproxy_monero_nodes: default_monero_nodes(),
            mmproxy_use_monero_fail: false,
            auto_update: true,
            reset_earnings: false,
            custom_power_levels_enabled: true,
            sharing_enabled: true,
        }
    }
}

/// What is to be written to disk after a change: the file and what it is to say.
#[derive(Debug, Clone)]
pub struct ConfigWrite {
    pub path: String,
    pub contents: AppConfigFromFile,
}

/// The settings that a migration reads and changes.
#[derive(Debug, Clone, Copy, PartialEq, Eq, Structural)]
pub struct VersionedSettings {
    pub version: u32,
    pub p2pool_enabled: bool,
    pub airdrop_ui_enabled: bool,
    pub mine_on_app_start: bool,
    pub auto_update: bool,
}

impl VersionedSettings {
    /// These settings brought up to the current version. Each version of the
    /// history switched one setting on: version 7 the peer-to-peer pool,
    /// version 8 the airdrop interface, version 9 mining at start and version 10
    /// unattended updates. Settings older than a version get what it switched on.
    #[verifier::opaque]
    pub open spec fn migrated(self) -> VersionedSettings {
        VersionedSettings {
            version: if self.version <= 9 {
                CURRENT_CONFIG_VERSION
            } else {
                self.version
            },
            p2pool_enabled: self.version <= 6 || self.p2pool_enabled,
            airdrop_ui_enabled: self.version <= 7 || self.airdrop_ui_enabled,
            mine_on_app_start: self.version <= 8 || self.mine_on_app_start,
            auto_update: self.version <= 9 || self.auto_update,
        }
    }

    /// Migrated settings are current, and migrating current settings changes
    /// nothing: migrating twice is migrating once.
    pub proof fn lemma_migration_is_idempotent(self)
        ensures
            self.migrated().version >= CURRENT_CONFIG_VERSION,
            self.version >= CURRENT_CONFIG_VERSION ==> self.migrated() == self,
            self.migrated().migrated() == self.migrated(),
    {
        reveal(VersionedSettings::migrated);
    }

    /// Brings these settings up to the current version, one version at a time.
    pub fn migrate(self) -> (r: VersionedSettings)
        ensures
            r == self.migrated(),
            r.version >= CURRENT_CONFIG_VERSION,
    {
        reveal(VersionedSettings::migrated);
        let mut s = self;
        if s.version <= 6 {
            s.version = 7;
            s.p2pool_enabled = true;
        }
        if s.version <= 7 {
            s.version = 8;
            s.airdrop_ui_enabled = true;
        }
        if s.version <= 8 {
            s.version = 9;
            s.mine_on_app_start = true;
        }
        if s.version <= 9 {
            s.auto_update = true;
            s.version = 10;
        }
        s
    }
}

/// A usage limit after a request to change it: the limit asked for, or the
/// current one where none is asked for.
#[verifier::opaque]
pub open spec fn limit_after(asked: Option<isize>, current: Option<isize>) -> Option<isize> {
    if asked.is_some() {
        asked
    } else {
        current
    }
}

fn choose_limit(asked: Option<isize>, current: Option<isize>) -> (r: Option<isize>)
    ensures
        r == limit_after(asked, current),
{
    reveal(limit_after);
    match asked {
        Some(limit) => Some(limit),
        None => current,
    }
}

/// The settings of the running application.
#[derive(Debug, Clone)]
pub struct AppConfig {
    pub config_version: u32,
    pub config_file: Option<String>,
    pub mode: MiningMode,
    pub display_mode: DisplayMode,
    pub auto_mining: bool,
    pub mine_on_app_start: bool,
    pub p2pool_enabled: bool,
    pub last_binaries_update_timestamp: Timestamp,
    pub allow_telemetry: bool,
    pub anon_id: String,
    pub monero_address: String,
    pub gpu_mining_enabled: bool,
    pub cpu_mining_enabled: bool,
    pub has_system_language_been_proposed: bool,
    pub should_always_use_system_language: bool,
    pub should_auto_launch: bool,
    pub application_language: String,
    pub airdrop_ui_enabled: bool,
    pub paper_wallet_enabled: bool,
    pub use_tor: bool,
    pub reset_earnings: bool,
    pub eco_mode_cpu_threads: Option<isize>,
    pub ludicrous_mode_cpu_threads: Option<isize>,
    pub eco_mode_cpu_options: Vec<String>,
    pub ludicrous_mode_cpu_options: Vec<String>,
    pub custom_mode_cpu_options: Vec<String>,
    pub mmproxy_use_monero_fail: bool,
    pub mmproxy_monero_nodes: Vec<String>,
    pub custom_max_cpu_usage: Option<isize>,
    pub custom_max_gpu_usage: Option<isize>,
    pub auto_update: bool,
    pub custom_power_levels_enabled: bool,
    pub sharing_enabled: bool,
}


/// The locale that the system reports.
///
/// Trusted: `sys_locale::get_locale` asks the operating system for the user's
/// preferred locale. What it answers depends on the machine, so nothing is
/// claimed of the result.
pub assume_specification[ sys_locale::get_locale ]() -> Option<String>;

impl AppConfig {
    /// The settings of a first start, before any file is read.
    pub open spec fn is_initial(self) -> bool {
        &&& self.config_version == CURRENT_CONFIG_VERSION
        &&& self.config_file.is_none()
        &&& self.mode == MiningMode::Eco
        &&& self.display_mode == DisplayMode::Light
        &&& self.auto_mining
        &&& self.mine_on_app_start
        &&& self.p2pool_enabled
        &&& self.last_binaries_update_timestamp == (Timestamp {
            secs_since_epoch: 0,
            nanos_since_epoch: 0,
        })
        &&& self.allow_telemetry
        &&& is_anon_id(self.anon_id@)
        &&& self.monero_address@ == DEFAULT_MONERO_ADDRESS@
        &&& self.gpu_mining_enabled
        &&& self.cpu_mining_enabled
        &&& !self.has_system_language_been_proposed
        &&& !self.should_always_use_system_language
        &&& !self.should_auto_launch
        &&& self.application_language@ == "en"@
        &&& self.airdrop_ui_enabled
        &&& self.use_tor
        &&& !self.paper_wallet_enabled
        &&& !self.reset_earnings
        &&& self.eco_mode_cpu_threads.is_none()
        &&& self.ludicrous_mode_cpu_threads.is_none()
        &&& self.eco_mode_cpu_options@.len() == 0
        &&& self.ludicrous_mode_cpu_options@.len() == 0
        &&& self.custom_mode_cpu_options@.len() == 0
        &&& !self.mmproxy_use_monero_fail
        &&& is_default_monero_nodes(self.mmproxy_monero_nodes@)
        &&& self.custom_max_cpu_usage.is_none()
        &&& self.custom_max_gpu_usage.is_none()
        &&& self.auto_update
        &&& self.custom_power_levels_enabled
        &&& self.sharing_enabled
    }

    /// These settings with `file` chosen as the settings file.
    pub open spec fn with_config_file(self, file: String) -> AppConfig {
        AppConfig { config_file: Some(file), ..self }
    }

    /// These settings after every field of a settings file has been taken over.
    /// An unknown mining mode counts as `Eco`. The display mode and the request
    /// to reset earnings are honoured on the Esmeralda network only; elsewhere
    /// the display is light and earnings stay.
    pub open spec fn with_loaded(self, file: AppConfigFromFile, network: Network) -> AppConfig {
        AppConfig {
            config_version: file.version,
            config_file: self.config_file,
            mode: match MiningMode::named(file.mode@) {
                Some(m) => m,
                None => MiningMode::Eco,
            },
            display_mode: if network == Network::Esmeralda {
                match DisplayMode::named(file.display_mode@) {
                    Some(d) => d,
                    None => DisplayMode::Light,
                }
            } else {
                DisplayMode::Light
            },
            reset_earnings: network == Network::Esmeralda && file.reset_earnings,
            auto_mining: file.auto_mining,
            mine_on_app_start: file.mine_on_app_start,
            p2pool_enabled: file.p2pool_enabled,
            last_binaries_update_timestamp: file.last_binaries_update_timestamp,
            allow_telemetry: file.allow_telemetry,
            anon_id: file.anon_id,
            monero_address: file.monero_address,
            gpu_mining_enabled: file.gpu_mining_enabled,
            cpu_mining_enabled: file.cpu_mining_enabled,
            has_system_language_been_proposed: file.has_system_language_been_proposed,
            should_always_use_system_language: file.should_always_use_system_language,
            should_auto_launch: file.should_auto_launch,
            application_language: file.application_language,
            airdrop_ui_enabled: file.airdrop_ui_enabled,
            use_tor: file.use_tor,
            paper_wallet_enabled: file.paper_wallet_enabled,
            eco_mode_cpu_options: file.eco_mode_cpu_options,
            eco_mode_cpu_threads: file.eco_mode_cpu_threads,
            ludicrous_mode_cpu_options: file.ludicrous_mode_cpu_options,
            ludicrous_mode_cpu_threads: file.ludicrous_mode_cpu_threads,
            custom_mode_cpu_options: file.custom_mode_cpu_options,
            mmproxy_monero_nodes: file.mmproxy_monero_nodes,
            mmproxy_use_monero_fail: file.mmproxy_use_monero_fail,
            custom_max_cpu_usage: file.custom_max_cpu_usage,
            custom_max_gpu_usage: file.custom_max_gpu_usage,
            auto_update: file.auto_update,
            custom_power_levels_enabled: file.custom_power_levels_enabled,
            sharing_enabled: file.sharing_enabled,
        }
    }

    /// What of these settings a migration looks at.
    pub open spec fn versioned(self) -> VersionedSettings {
        VersionedSettings {
            version: self.config_version,
            p2pool_enabled: self.p2pool_enabled,
            airdrop_ui_enabled: self.airdrop_ui_enabled,
            mine_on_app_start: self.mine_on_app_start,
            auto_update: self.auto_update,
        }
    }

    /// These settings with the versioned ones replaced.
    pub open spec fn with_versioned(self, v: VersionedSettings) -> AppConfig {
        AppConfig {
            config_version: v.version,
            config_file: self.config_file,
            mode: self.mode,
            display_mode: self.display_mode,
            auto_mining: self.auto_mining,
            mine_on_app_start: v.mine_on_app_start,
            p2pool_enabled: v.p2pool_enabled,
            last_binaries_update_timestamp: self.last_binaries_update_timestamp,
            allow_telemetry: self.allow_telemetry,
            anon_id: self.anon_id,
            monero_address: self.monero_address,
            gpu_mining_enabled: self.gpu_mining_enabled,
            cpu_mining_enabled: self.cpu_mining_enabled,
            has_system_language_been_proposed: self.has_system_language_been_proposed,
            should_always_use_system_language: self.should_always_use_system_language,
            should_auto_launch: self.should_auto_launch,
            application_language: self.application_language,
            airdrop_ui_enabled: v.airdrop_ui_enabled,
            paper_wallet_enabled: self.paper_wallet_enabled,
            use_tor: self.use_tor,
            reset_earnings: self.reset_earnings,
            eco_mode_cpu_threads: self.eco_mode_cpu_threads,
            ludicrous_mode_cpu_threads: self.ludicrous_mode_cpu_threads,
            eco_mode_cpu_options: self.eco_mode_cpu_options,
            ludicrous_mode_cpu_options: self.ludicrous_mode_cpu_options,
            custom_mode_cpu_options: self.custom_mode_cpu_options,
            mmproxy_use_monero_fail: self.mmproxy_use_monero_fail,
            mmproxy_monero_nodes: self.mmproxy_monero_nodes,
            custom_max_cpu_usage: self.custom_max_cpu_usage,
            custom_max_gpu_usage: self.custom_max_gpu_usage,
            auto_update: v.auto_update,
            custom_power_levels_enabled: self.custom_power_levels_enabled,
            sharing_enabled: self.sharing_enabled,
        }
    }

    /// These settings brought up to the current version; see
    /// [`VersionedSettings::migrated`].
    pub open spec fn migrated(self) -> AppConfig {
        self.with_versioned(self.versioned().migrated())
    }

    /// These settings after a settings file was read: taken over where it
    /// could be parsed, then migrated either way.
    pub open spec fn applied(self, loaded: Option<AppConfigFromFile>, network: Network) -> AppConfig {
        match loaded {
            Some(file) => self.with_loaded(file, network).migrated(),
            None => self.migrated(),
        }
    }

    /// Whether `r` is the right answer to a request to write these settings
    /// out: the chosen file with a faithful file form, or the error that no
    /// file was chosen.
    pub open spec fn update_outcome(self, r: Result<ConfigWrite, ConfigError>) -> bool {
        match r {
            Ok(w) => self.config_file == Some(w.path) && w.contents.mirrors(self),
            Err(e) => self.config_file.is_none() && e == ConfigError::ConfigFileNotSet,
        }
    }

    /// Whether `after` and `r` are what proposing the language `locale` makes
    /// of `before`. Nothing happens where a proposal was made before or the
    /// user does not follow the system. Else the language becomes the locale,
    /// `en-US` where the system names none, and the settings are written out.
    pub open spec fn proposal_outcome(
        before: AppConfig,
        locale: Option<String>,
        after: AppConfig,
        r: Result<Option<ConfigWrite>, ConfigError>,
    ) -> bool {
        if before.has_system_language_been_proposed || !before.should_always_use_system_language {
            after == before && r == Ok::<Option<ConfigWrite>, ConfigError>(None)
        } else {
            &&& after == (AppConfig {
                application_language: after.application_language,
                has_system_language_been_proposed: true,
                ..before
            })
            &&& after.application_language@ == (match locale {
                Some(l) => l@,
                None => "en-US"@,
            })
            &&& match r {
                Ok(Some(w)) => after.update_outcome(Ok(w)),
                Ok(None) => false,
                Err(e) => after.update_outcome(Err(e)),
            }
        }
    }

    pub fn new() -> (r: Self)
        ensures
            r.is_initial(),
    {
        Self {
            config_version: default_version(),
            config_file: None,
            mode: MiningMode::Eco,
            display_mode: DisplayMode::Light,
            auto_mining: true,
            mine_on_app_start: true,
            p2pool_enabled: true,
            last_binaries_update_timestamp: default_system_time(),
            allow_telemetry: true,
            anon_id: generate_password(ANON_ID_LENGTH),
            monero_address: DEFAULT_MONERO_ADDRESS.to_owned(),
            gpu_mining_enabled: true,
            cpu_mining_enabled: true,
            has_system_language_been_proposed: false,
            should_always_use_system_language: false,
            should_auto_launch: false,
            application_language: default_application_language(),
            airdrop_ui_enabled: true,
            use_tor: true,
            custom_max_cpu_usage: None,
            custom_max_gpu_usage: None,
            paper_wallet_enabled: false,
            reset_earnings: false,
            eco_mode_cpu_options: Vec::new(),
            ludicrous_mode_cpu_options: Vec::new(),
            custom_mode_cpu_options: Vec::new(),
            eco_mode_cpu_threads: None,
            ludicrous_mode_cpu_threads: None,
            mmproxy_use_monero_fail: false,
            mmproxy_monero_nodes: default_monero_nodes(),
            custom_power_levels_enabled: true,
            auto_update: true,
            sharing_enabled: true,
        }
    }

    /// These settings after `file` was chosen as the settings file and what
    /// was found there taken over: `existing` is `None` where the file does not
    /// exist yet, else what parsing it gave.
    pub open spec fn loaded_from(
        self,
        file: String,
        existing: Option<Option<AppConfigFromFile>>,
        network: Network,
    ) -> AppConfig {
        match existing {
            Some(loaded) => self.with_config_file(file).applied(loaded, network),
            None => self.with_config_file(file),
        }
    }

    /// Settles on `file` as the settings file and takes over what was found
    /// there, on the network that this process runs against: `existing` is
    /// `None` where the file does not exist yet, else what parsing it gave.
    /// Returns what is to be written back.
    pub fn load_or_create(
        &mut self,
        file: String,
        existing: Option<Option<AppConfigFromFile>>,
    ) -> (w: ConfigWrite)
        ensures
            exists|network: Network|
                *final(self) == #[trigger] old(self).loaded_from(file, existing, network),
            final(self).update_outcome(Ok(w)),
    {
        let network = Network::current();
        self.load_or_create_on(file, existing, network)
    }

    /// Settles on `file` as the settings file and takes over what was found
    /// there, as `network` allows. Returns what is to be written back.
    pub fn load_or_create_on(
        &mut self,
        file: String,
        existing: Option<Option<AppConfigFromFile>>,
        network: Network,
    ) -> (w: ConfigWrite)
        ensures
            *final(self) == old(self).loaded_from(file, existing, network),
            final(self).update_outcome(Ok(w)),
    {
        let path = file.clone();
        self.choose_file(file);
        self.apply_existing(existing, network);
        proof {
            Self::lemma_loading_keeps_file(old(self).with_config_file(file), existing, network);
        }
        let contents = self.file_form();
        ConfigWrite { path, contents }
    }

    fn choose_file(&mut self, file: String)
        ensures
            *final(self) == old(self).with_config_file(file),
    {
        self.config_file = Some(file);
    }

    /// Taking over a settings file and migrating leave the choice of the
    /// settings file alone.
    pub proof fn lemma_loading_keeps_file(
        config: AppConfig,
        existing: Option<Option<AppConfigFromFile>>,
        network: Network,
    )
        ensures
            (match existing {
                Some(loaded) => config.applied(loaded, network),
                None => config,
            }).config_file == config.config_file,
    {
    }

    fn apply_existing(&mut self, existing: Option<Option<AppConfigFromFile>>, network: Network)
        ensures
            *final(self) == (match existing {
                Some(loaded) => old(self).applied(loaded, network),
                None => *old(self),
            }),
    {
        match existing {
            Some(loaded) => {
                self.apply_loaded(loaded, network);
            },
            None => {},
        }
    }

    /// Takes over what a settings file held, on the network that this process
    /// runs against, and migrates. `loaded` is `None` where the file could not
    /// be parsed: then only the migration takes place.
    pub fn apply_loaded_config(&mut self, loaded: Option<AppConfigFromFile>)
        ensures
            exists|network: Network| *final(self) == #[trigger] old(self).applied(loaded, network),
            final(self).config_version >= CURRENT_CONFIG_VERSION,
    {
        let network = Network::current();
        self.apply_loaded(loaded, network);
    }

    /// Takes over what a settings file held, as `network` allows, and migrates.
    pub fn apply_loaded(&mut self, loaded: Option<AppConfigFromFile>, network: Network)
        ensures
            *final(self) == old(self).applied(loaded, network),
            final(self).config_version >= CURRENT_CONFIG_VERSION,
    {
        match loaded {
            Some(file) => {
                self.take_over(file, network);
            },
            None => {},
        }
        self.migrate();
    }

    fn take_over(&mut self, file: AppConfigFromFile, network: Network)
        ensures
            *final(self) == old(self).with_loaded(file, network),
    {
        let on_esmeralda = network == Network::Esmeralda;
        self.config_version = file.version;
        self.mode = match MiningMode::from_str(file.mode.as_str()) {
            Some(m) => m,
            None => MiningMode::Eco,
        };
        if on_esmeralda {
            self.display_mode = match DisplayMode::from_str(file.display_mode.as_str()) {
                Some(d) => d,
                None => DisplayMode::Light,
            };
            self.reset_earnings = file.reset_earnings;
        } else {
            self.display_mode = DisplayMode::Light;
            self.reset_earnings = false;
        }
        self.auto_mining = file.auto_mining;
        self.mine_on_app_start = file.mine_on_app_start;
        self.p2pool_enabled = file.p2pool_enabled;
        self.last_binaries_update_timestamp = file.last_binaries_update_timestamp;
        self.allow_telemetry = file.allow_telemetry;
        self.anon_id = file.anon_id;
        self.monero_address = file.monero_address;
        self.gpu_mining_enabled = file.gpu_mining_enabled;
        self.cpu_mining_enabled = file.cpu_mining_enabled;
        self.has_system_language_been_proposed = file.has_system_language_been_proposed;
        self.should_always_use_system_language = file.should_always_use_system_language;
        self.should_auto_launch = file.should_auto_launch;
        self.application_language = file.application_language;
        self.airdrop_ui_enabled = file.airdrop_ui_enabled;
        self.use_tor = file.use_tor;
        self.paper_wallet_enabled = file.paper_wallet_enabled;
        self.eco_mode_cpu_options = file.eco_mode_cpu_options;
        self.eco_mode_cpu_threads = file.eco_mode_cpu_threads;
        self.ludicrous_mode_cpu_options = file.ludicrous_mode_cpu_options;
        self.ludicrous_mode_cpu_threads = file.ludicrous_mode_cpu_threads;
        self.custom_mode_cpu_options = file.custom_mode_cpu_options;
        self.mmproxy_monero_nodes = file.mmproxy_monero_nodes;
        self.mmproxy_use_monero_fail = file.mmproxy_use_monero_fail;
        self.custom_max_cpu_usage = file.custom_max_cpu_usage;
        self.custom_max_gpu_usage = file.custom_max_gpu_usage;
        self.auto_update = file.auto_update;
        self.custom_power_levels_enabled = file.custom_power_levels_enabled;
        self.sharing_enabled = file.sharing_enabled;
    }

    fn read_versioned(&self) -> (r: VersionedSettings)
        ensures
            r == self.versioned(),
    {
        VersionedSettings {
            version: self.config_version,
            p2pool_enabled: self.p2pool_enabled,
            airdrop_ui_enabled: self.airdrop_ui_enabled,
            mine_on_app_start: self.mine_on_app_start,
            auto_update: self.auto_update,
        }
    }

    fn write_versioned(&mut self, v: VersionedSettings)
        ensures
            *final(self) == old(self).with_versioned(v),
    {
        self.config_version = v.version;
        self.p2pool_enabled = v.p2pool_enabled;
        self.airdrop_ui_enabled = v.airdrop_ui_enabled;
        self.mine_on_app_start = v.mine_on_app_start;
        self.auto_update = v.auto_update;
    }

    /// Brings the settings up to the current version.
    pub fn migrate(&mut self)
        ensures
            *final(self) == old(self).migrated(),
            final(self).config_version >= CURRENT_CONFIG_VERSION,
    {
        let migrated = self.read_versioned().migrate();
        self.write_versioned(migrated);
    }

    /// What was written out is read back: a file form that says what some
    /// settings hold still says what holds after it was taken over, on the
    /// network that honours every field of it.
    pub proof fn lemma_file_form_is_read_back(
        config: AppConfig,
        file: AppConfigFromFile,
        before: AppConfig,
    )
        requires
            file.mirrors(config),
        ensures
            file.mirrors(before.with_loaded(file, Network::Esmeralda)),
            before.with_loaded(file, Network::Esmeralda).mode == config.mode,
            before.with_loaded(file, Network::Esmeralda).display_mode == config.display_mode,
    {
        MiningMode::lemma_name_round_trip(config.mode);
        DisplayMode::lemma_name_round_trip(config.display_mode);
    }

    /// Migrated settings are current, whatever they were before.
    pub proof fn lemma_migrated_is_current(config: AppConfig)
        ensures
            config.migrated().config_version >= CURRENT_CONFIG_VERSION,
    {
        reveal(VersionedSettings::migrated);
    }

    /// The file form of these settings.
    pub fn file_form(&self) -> (r: AppConfigFromFile)
        ensures
            r.mirrors(*self),
    {
        AppConfigFromFile {
            version: self.config_version,
            mode: MiningMode::to_str(self.mode),
            display_mode: DisplayMode::to_str(self.display_mode),
            auto_mining: self.auto_mining,
            mine_on_app_start: self.mine_on_app_start,
            p2pool_enabled: self.p2pool_enabled,
            last_binaries_update_timestamp: self.last_binaries_update_timestamp,
            allow_telemetry: self.allow_telemetry,
            anon_id: self.anon_id.clone(),
            monero_address: self.monero_address.clone(),
            gpu_mining_enabled: self.gpu_mining_enabled,
            cpu_mining_enabled: self.cpu_mining_enabled,
            has_system_language_been_proposed: self.has_system_language_been_proposed,
            should_always_use_system_language: self.should_always_use_system_language,
            should_auto_launch: self.should_auto_launch,
            application_language: self.application_language.clone(),
            airdrop_ui_enabled: self.airdrop_ui_enabled,
            paper_wallet_enabled: self.paper_wallet_enabled,
            custom_max_cpu_usage: self.custom_max_cpu_usage,
            custom_max_gpu_usage: self.custom_max_gpu_usage,
            use_tor: self.use_tor,
            reset_earnings: self.reset_earnings,
            eco_mode_cpu_options: clone_strings(&self.eco_mode_cpu_options),
            ludicrous_mode_cpu_options: clone_strings(&self.ludicrous_mode_cpu_options),
            custom_mode_cpu_options: clone_strings(&self.custom_mode_cpu_options),
            eco_mode_cpu_threads: self.eco_mode_cpu_threads,
            ludicrous_mode_cpu_threads: self.ludicrous_mode_cpu_threads,
            mmproxy_monero_nodes: clone_strings(&self.mmproxy_monero_nodes),
            mmproxy_use_monero_fail: self.mmproxy_use_monero_fail,
            auto_update: self.auto_update,
            custom_power_levels_enabled: self.custom_power_levels_enabled,
            sharing_enabled: self.sharing_enabled,
        }
    }

    /// What is to be written to the settings file so that it says what these
    /// settings hold; an error where no file has been chosen.
    pub fn update_config_file(&self) -> (r: Result<ConfigWrite, ConfigError>)
        ensures
            self.update_outcome(r),
    {
        match &self.config_file {
            Some(file) => Ok(ConfigWrite { path: file.clone(), contents: self.file_form() }),
            None => Err(ConfigError::ConfigFileNotSet),
        }
    }

    pub fn mmproxy_use_monero_fail(&self) -> (r: bool)
        ensures
            r == self.mmproxy_use_monero_fail,
    {
        self.mmproxy_use_monero_fail
    }

    pub fn eco_mode_cpu_threads(&self) -> (r: Option<isize>)
        ensures
            r == self.eco_mode_cpu_threads,
    {
        self.eco_mode_cpu_threads
    }

    pub fn ludicrous_mode_cpu_threads(&self) -> (r: Option<isize>)
        ensures
            r == self.ludicrous_mode_cpu_threads,
    {
        self.ludicrous_mode_cpu_threads
    }

    pub fn cpu_mining_enabled(&self) -> (r: bool)
        ensures
            r == self.cpu_mining_enabled,
    {
        self.cpu_mining_enabled
    }

    pub fn gpu_mining_enabled(&self) -> (r: bool)
        ensures
            r == self.gpu_mining_enabled,
    {
        self.gpu_mining_enabled
    }

    pub fn p2pool_enabled(&self) -> (r: bool)
        ensures
            r == self.p2pool_enabled,
    {
        self.p2pool_enabled
    }

    pub fn auto_mining(&self) -> (r: bool)
        ensures
            r == self.auto_mining,
    {
        self.auto_mining
    }

    pub fn should_auto_launch(&self) -> (r: bool)
        ensures
            r == self.should_auto_launch,
    {
        self.should_auto_launch
    }

    pub fn allow_telemetry(&self) -> (r: bool)
        ensures
            r == self.allow_telemetry,
    {
        self.allow_telemetry
    }

    pub fn last_binaries_update_timestamp(&self) -> (r: Timestamp)
        ensures
            r == self.last_binaries_update_timestamp,
    {
        self.last_binaries_update_timestamp
    }

    pub fn use_tor(&self) -> (r: bool)
        ensures
            r == self.use_tor,
    {
        self.use_tor
    }

    pub fn auto_update(&self) -> (r: bool)
        ensures
            r == self.auto_update,
    {
        self.auto_update
    }

    pub fn mode(&self) -> (r: MiningMode)
        ensures
            r == self.mode,
    {
        self.mode
    }

    pub fn mmproxy_monero_nodes(&self) -> (r: &Vec<String>)
        ensures
            *r == self.mmproxy_monero_nodes,
    {
        &self.mmproxy_monero_nodes
    }

    pub fn eco_mode_cpu_options(&self) -> (r: &Vec<String>)
        ensures
            *r == self.eco_mode_cpu_options,
    {
        &self.eco_mode_cpu_options
    }

    pub fn ludicrous_mode_cpu_options(&self) -> (r: &Vec<String>)
        ensures
            *r == self.ludicrous_mode_cpu_options,
    {
        &self.ludicrous_mode_cpu_options
    }

    pub fn custom_mode_cpu_options(&self) -> (r: &Vec<String>)
        ensures
            *r == self.custom_mode_cpu_options,
    {
        &self.custom_mode_cpu_options
    }

    pub fn anon_id(&self) -> (r: &str)
        ensures
            r@ == self.anon_id@,
    {
        self.anon_id.as_str()
    }

    pub fn monero_address(&self) -> (r: &str)
        ensures
            r@ == self.monero_address@,
    {
        self.monero_address.as_str()
    }

    pub fn application_language(&self) -> (r: &str)
        ensures
            r@ == self.application_language@,
    {
        self.application_language.as_str()
    }

    /// The usage limit that custom mode applies to the GPU: the custom CPU
    /// limit.
    pub fn custom_gpu_usage(&self) -> (r: Option<isize>)
        ensures
            r == self.custom_max_cpu_usage,
    {
        self.custom_max_cpu_usage
    }

    pub fn custom_cpu_usage(&self) -> (r: Option<isize>)
        ensures
            r == self.custom_max_cpu_usage,
    {
        self.custom_max_cpu_usage
    }

    /// Switches to the mining mode that `mode` names and, in that order, sets
    /// the usage limits that are given. An unknown name changes nothing. Where
    /// no settings file has been chosen the mode is switched, the limits are
    /// left alone and the error says so.
    pub fn set_mode(
        &mut self,
        mode: String,
        custom_max_cpu_usage: Option<isize>,
        custom_max_gpu_usage: Option<isize>,
    ) -> (r: Result<ConfigWrite, ConfigError>)
        ensures
            match MiningMode::named(mode@) {
                None => *final(self) == *old(self) && r == Err::<ConfigWrite, ConfigError>(
                    ConfigError::InvalidMode,
                ),
                Some(m) => if old(self).config_file.is_none() {
                    *final(self) == old(self).with_mode(m, None, None) && r == Err::<
                        ConfigWrite,
                        ConfigError,
                    >(ConfigError::ConfigFileNotSet)
                } else {
                    &&& *final(self) == old(self).with_mode(
                        m,
                        custom_max_cpu_usage,
                        custom_max_gpu_usage,
                    )
                    &&& r.is_ok()
                    &&& final(self).update_outcome(r)
                },
            },
    {
        match MiningMode::from_str(mode.as_str()) {
            None => Err(ConfigError::InvalidMode),
            Some(new_mode) => self.switch_mode(new_mode, custom_max_cpu_usage, custom_max_gpu_usage),
        }
    }

    /// These settings in another mining mode, with the usage limits that are
    /// given; a limit that is not given stays.
    pub open spec fn with_mode(self, mode: MiningMode, cpu: Option<isize>, gpu: Option<isize>) -> AppConfig {
        AppConfig {
            mode,
            custom_max_cpu_usage: limit_after(cpu, self.custom_max_cpu_usage),
            custom_max_gpu_usage: limit_after(gpu, self.custom_max_gpu_usage),
            ..self
        }
    }

    fn write_mode(&mut self, mode: MiningMode, cpu: Option<isize>, gpu: Option<isize>)
        ensures
            *final(self) == (AppConfig {
                mode,
                custom_max_cpu_usage: cpu,
                custom_max_gpu_usage: gpu,
                ..*old(self)
            }),
    {
        self.mode = mode;
        self.custom_max_cpu_usage = cpu;
        self.custom_max_gpu_usage = gpu;
    }

    fn switch_mode(&mut self, new_mode: MiningMode, cpu: Option<isize>, gpu: Option<isize>) -> (r:
        Result<ConfigWrite, ConfigError>)
        ensures
            old(self).config_file.is_none() ==> *final(self) == old(self).with_mode(
                new_mode,
                None,
                None,
            ) && r == Err::<ConfigWrite, ConfigError>(ConfigError::ConfigFileNotSet),
            old(self).config_file.is_some() ==> *final(self) == old(self).with_mode(
                new_mode,
                cpu,
                gpu,
            ) && r.is_ok() && final(self).update_outcome(r),
    {
        let has_file = self.config_file.is_some();
        let asked_cpu = if has_file {
            cpu
        } else {
            None
        };
        let asked_gpu = if has_file {
            gpu
        } else {
            None
        };
        let new_cpu = choose_limit(asked_cpu, self.custom_max_cpu_usage);
        let new_gpu = choose_limit(asked_gpu, self.custom_max_gpu_usage);
        self.write_mode(new_mode, new_cpu, new_gpu);
        self.update_config_file()
    }

    /// Switches to the display mode that `display_mode` names. An unknown name
    /// changes nothing.
    pub fn set_display_mode(&mut self, display_mode: String) -> (r: Result<
        ConfigWrite,
        ConfigError,
    >)
        ensures
            match DisplayMode::named(display_mode@) {
                None => *final(self) == *old(self) && r == Err::<ConfigWrite, ConfigError>(
                    ConfigError::InvalidDisplayMode,
                ),
                Some(d) => *final(self) == (AppConfig { display_mode: d, ..*old(self) })
                    && final(self).update_outcome(r),
            },
    {
        let new_display_mode = match DisplayMode::from_str(display_mode.as_str()) {
            Some(d) => d,
            None => {
                return Err(ConfigError::InvalidDisplayMode);
            },
        };
        self.display_mode = new_display_mode;
        self.update_config_file()
    }

    pub fn set_max_gpu_usage(&mut self, custom_max_gpu_usage: isize) -> (r: Result<
        ConfigWrite,
        ConfigError,
    >)
        ensures
            *final(self) == (AppConfig {
                custom_max_gpu_usage: Some(custom_max_gpu_usage),
                ..*old(self)
            }),
            final(self).update_outcome(r),
    {
        self.custom_max_gpu_usage = Some(custom_max_gpu_usage);
        self.update_config_file()
    }

    pub fn set_max_cpu_usage(&mut self, custom_max_cpu_usage: isize) -> (r: Result<
        ConfigWrite,
        ConfigError,
    >)
        ensures
            *final(self) == (AppConfig {
                custom_max_cpu_usage: Some(custom_max_cpu_usage),
                ..*old(self)
            }),
            final(self).update_outcome(r),
    {
        self.custom_max_cpu_usage = Some(custom_max_cpu_usage);
        self.update_config_file()
    }

    pub fn set_cpu_mining_enabled(&mut self, enabled: bool) -> (r: Result<ConfigWrite, ConfigError>)
        ensures
            *final(self) == (AppConfig { cpu_mining_enabled: enabled, ..*old(self) }),
            final(self).update_outcome(r),
    {
        self.cpu_mining_enabled = enabled;
        self.update_config_file()
    }

    pub fn set_gpu_mining_enabled(&mut self, enabled: bool) -> (r: Result<ConfigWrite, ConfigError>)
        ensures
            *final(self) == (AppConfig { gpu_mining_enabled: enabled, ..*old(self) }),
            final(self).update_outcome(r),
    {
        self.gpu_mining_enabled = enabled;
        self.update_config_file()
    }

    /// Turns the peer-to-peer pool on or off. Returns what is to be written to the settings file.
    pub fn set_p2pool_enabled(&mut self, p2pool_enabled: bool) -> (r: Result<ConfigWrite, ConfigError>)
        ensures
            *final(self) == (AppConfig { p2pool_enabled, ..*old(self) }),
            final(self).update_outcome(r),
    {
        self.p2pool_enabled = p2pool_enabled;
        self.update_config_file()
    }

    /// Chooses whether the application starts with the system. Returns what is to be written to the settings file.
    pub fn set_should_auto_launch(&mut self, should_auto_launch: bool) -> (r: Result<ConfigWrite, ConfigError>)
        ensures
            *final(self) == (AppConfig { should_auto_launch, ..*old(self) }),
            final(self).update_outcome(r),
    {
        self.should_auto_launch = should_auto_launch;
        self.update_config_file()
    }

    /// Chooses whether mining starts with the application. Returns what is to be written to the settings file.
    pub fn set_mine_on_app_start(&mut self, mine_on_app_start: bool) -> (r: Result<ConfigWrite, ConfigError>)
        ensures
            *final(self) == (AppConfig { mine_on_app_start, ..*old(self) }),
            final(self).update_outcome(r),
    {
        self.mine_on_app_start = mine_on_app_start;
        self.update_config_file()
    }

    /// Allows or forbids telemetry. Returns what is to be written to the settings file.
    pub fn set_allow_telemetry(&mut self, allow_telemetry: bool) -> (r: Result<ConfigWrite, ConfigError>)
        ensures
            *final(self) == (AppConfig { allow_telemetry, ..*old(self) }),
            final(self).update_outcome(r),
    {
        self.allow_telemetry = allow_telemetry;
        self.update_config_file()
    }

    /// Chooses whether the language follows the system. Returns what is to be written to the settings file.
    pub fn set_should_always_use_system_language(&mut self, should_always_use_system_language: bool) -> (r: Result<ConfigWrite, ConfigError>)
        ensures
            *final(self) == (AppConfig { should_always_use_system_language, ..*old(self) }),
            final(self).update_outcome(r),
    {
        self.should_always_use_system_language = should_always_use_system_language;
        self.update_config_file()
    }

    /// Chooses whether connections go through Tor. Returns what is to be written to the settings file.
    pub fn set_use_tor(&mut self, use_tor: bool) -> (r: Result<ConfigWrite, ConfigError>)
        ensures
            *final(self) == (AppConfig { use_tor, ..*old(self) }),
            final(self).update_outcome(r),
    {
        self.use_tor = use_tor;
        self.update_config_file()
    }

    /// Chooses whether updates are installed unattended. Returns what is to be written to the settings file.
    pub fn set_auto_update(&mut self, auto_update: bool) -> (r: Result<ConfigWrite, ConfigError>)
        ensures
            *final(self) == (AppConfig { auto_update, ..*old(self) }),
            final(self).update_outcome(r),
    {
        self.auto_update = auto_update;
        self.update_config_file()
    }

    pub fn set_monero_address(&mut self, address: String) -> (r: Result<ConfigWrite, ConfigError>)
        ensures
            *final(self) == (AppConfig { monero_address: address, ..*old(self) }),
            final(self).update_outcome(r),
    {
        self.monero_address = address;
        self.update_config_file()
    }

    /// Records when the binaries were last brought up to date.
    pub fn set_last_binaries_update_timestamp(&mut self, timestamp: Timestamp) -> (r: Result<
        ConfigWrite,
        ConfigError,
    >)
        ensures
            *final(self) == (AppConfig {
                last_binaries_update_timestamp: timestamp,
                ..*old(self)
            }),
            final(self).update_outcome(r),
    {
        self.last_binaries_update_timestamp = timestamp;
        self.update_config_file()
    }

    pub fn set_application_language(&mut self, language: String) -> (r: Result<
        ConfigWrite,
        ConfigError,
    >)
        ensures
            *final(self) == (AppConfig { application_language: language, ..*old(self) }),
            final(self).update_outcome(r),
    {
        self.application_language = language;
        self.update_config_file()
    }

    /// Proposes the system's language once, where the user follows the system.
    pub fn propose_system_language(&mut self) -> (r: Result<Option<ConfigWrite>, ConfigError>)
        ensures
            exists|locale: Option<String>| #[trigger]
                Self::proposal_outcome(*old(self), locale, *final(self), r),
    {
        if self.has_system_language_been_proposed || !self.should_always_use_system_language {
            proof {
                assert(Self::proposal_outcome(*old(self), None, *self, Ok(None)));
            }
            Ok(None)
        } else {
            let locale = sys_locale::get_locale();
            self.propose_language(locale)
        }
    }

    /// Proposes `locale`, the language that the system reported, once, where
    /// the user follows the system.
    pub fn propose_language(&mut self, locale: Option<String>) -> (r: Result<
        Option<ConfigWrite>,
        ConfigError,
    >)
        ensures
            Self::proposal_outcome(*old(self), locale, *final(self), r),
    {
        if self.has_system_language_been_proposed || !self.should_always_use_system_language {
            Ok(None)
        } else {
            let system_language = match locale {
                Some(l) => l,
                None => "en-US".to_owned(),
            };
            self.application_language = system_language;
            self.has_system_language_been_proposed = true;
            match self.update_config_file() {
                Ok(w) => Ok(Some(w)),
                Err(e) => Err(e),
            }
        }
    }

    /// Sets how the merge-mining proxy finds its nodes.
    pub fn set_monerod_config(&mut self, use_monero_fail: bool, monero_nodes: Vec<String>) -> (r:
        Result<ConfigWrite, ConfigError>)
        ensures
            *final(self) == (AppConfig {
                mmproxy_use_monero_fail: use_monero_fail,
                mmproxy_monero_nodes: monero_nodes,
                ..*old(self)
            }),
            final(self).update_outcome(r),
    {
        self.mmproxy_use_monero_fail = use_monero_fail;
        self.mmproxy_monero_nodes = monero_nodes;
        self.update_config_file()
    }
}

} // verus!
