use tari_universe::app_config::{
    AppConfig, AppConfigFromFile, ConfigError, DisplayMode, MiningMode, Timestamp,
    VersionedSettings, CONFIG_FILE_NAME, CURRENT_CONFIG_VERSION,
};
use tari_universe::consts::DEFAULT_MONERO_ADDRESS;
use tari_universe::network::Network;

fn with_file() -> AppConfig {
    let mut config = AppConfig::new();
    config.config_file = Some(String::from("/tmp/settings/app_config.json"));
    config
}

#[test]
fn display_mode_names_round_trip() {
    assert_eq!(DisplayMode::from_str("system"), Some(DisplayMode::System));
    assert_eq!(DisplayMode::from_str("dark"), Some(DisplayMode::Dark));
    assert_eq!(DisplayMode::from_str("light"), Some(DisplayMode::Light));
    assert_eq!(DisplayMode::from_str("Light"), None);
    assert_eq!(DisplayMode::from_str(""), None);
    for mode in [DisplayMode::System, DisplayMode::Dark, DisplayMode::Light] {
        assert_eq!(DisplayMode::from_str(&DisplayMode::to_str(mode)), Some(mode));
    }
    assert_eq!(DisplayMode::to_str(DisplayMode::System), "system");
    assert_eq!(DisplayMode::to_str(DisplayMode::Dark), "dark");
    assert_eq!(DisplayMode::to_str(DisplayMode::Light), "light");
}

#[test]
fn mining_mode_names_round_trip() {
    assert_eq!(MiningMode::from_str("Eco"), Some(MiningMode::Eco));
    assert_eq!(MiningMode::from_str("Ludicrous"), Some(MiningMode::Ludicrous));
    assert_eq!(MiningMode::from_str("Custom"), Some(MiningMode::Custom));
    assert_eq!(MiningMode::from_str("eco"), None);
    assert_eq!(MiningMode::from_str("Turbo"), None);
    for mode in [MiningMode::Eco, MiningMode::Ludicrous, MiningMode::Custom] {
        assert_eq!(MiningMode::from_str(&MiningMode::to_str(mode)), Some(mode));
    }
    assert_eq!(MiningMode::to_str(MiningMode::Eco), "Eco");
    assert_eq!(MiningMode::to_str(MiningMode::Ludicrous), "Ludicrous");
    assert_eq!(MiningMode::to_str(MiningMode::Custom), "Custom");
}

#[test]
fn new_config_has_the_initial_settings() {
    let config = AppConfig::new();
    assert_eq!(config.config_version, 10);
    assert_eq!(config.config_version, CURRENT_CONFIG_VERSION);
    assert!(config.config_file.is_none());
    assert_eq!(config.mode(), MiningMode::Eco);
    assert_eq!(config.display_mode, DisplayMode::Light);
    assert!(config.auto_mining());
    assert!(config.mine_on_app_start);
    assert!(config.p2pool_enabled());
    assert_eq!(
        config.last_binaries_update_timestamp(),
        Timestamp { secs_since_epoch: 0, nanos_since_epoch: 0 }
    );
    assert!(config.allow_telemetry());
    assert_eq!(config.monero_address(), DEFAULT_MONERO_ADDRESS);
    assert!(config.gpu_mining_enabled());
    assert!(config.cpu_mining_enabled());
    assert!(!config.has_system_language_been_proposed);
    assert!(!config.should_always_use_system_language);
    assert!(!config.should_auto_launch());
    assert_eq!(config.application_language(), "en");
    assert!(config.airdrop_ui_enabled);
    assert!(config.use_tor());
    assert!(!config.paper_wallet_enabled);
    assert!(!config.reset_earnings);
    assert_eq!(config.eco_mode_cpu_threads(), None);
    assert_eq!(config.ludicrous_mode_cpu_threads(), None);
    assert!(config.eco_mode_cpu_options().is_empty());
    assert!(config.ludicrous_mode_cpu_options().is_empty());
    assert!(config.custom_mode_cpu_options().is_empty());
    assert!(!config.mmproxy_use_monero_fail());
    assert_eq!(config.mmproxy_monero_nodes(), &vec![String::from("https://xmr-01.tari.com")]);
    assert_eq!(config.custom_cpu_usage(), None);
    assert_eq!(config.custom_gpu_usage(), None);
    assert!(config.auto_update());
    assert!(config.custom_power_levels_enabled);
    assert!(config.sharing_enabled);
}

#[test]
fn anon_id_is_twenty_letters_and_digits() {
    let config = AppConfig::new();
    assert_eq!(config.anon_id().chars().count(), 20);
    assert!(config.anon_id().chars().all(|c| c.is_ascii_alphanumeric()));
    let file = AppConfigFromFile::default();
    assert_eq!(file.anon_id.chars().count(), 20);
    assert!(file.anon_id.chars().all(|c| c.is_ascii_alphanumeric()));
}

#[test]
fn default_file_form() {
    let file = AppConfigFromFile::default();
    assert_eq!(file.version, 10);
    assert_eq!(file.mode, "Eco");
    assert_eq!(file.display_mode, "light");
    assert!(file.auto_mining && file.mine_on_app_start && file.p2pool_enabled);
    assert_eq!(
        file.last_binaries_update_timestamp,
        Timestamp { secs_since_epoch: 0, nanos_since_epoch: 0 }
    );
    assert!(!file.allow_telemetry);
    assert_eq!(file.monero_address, DEFAULT_MONERO_ADDRESS);
    assert!(file.gpu_mining_enabled && file.cpu_mining_enabled);
    assert!(!file.has_system_language_been_proposed);
    assert!(!file.should_always_use_system_language);
    assert!(!file.should_auto_launch);
    assert_eq!(file.application_language, "en");
    assert!(file.airdrop_ui_enabled && file.use_tor);
    assert!(!file.paper_wallet_enabled && !file.reset_earnings);
    assert_eq!(file.eco_mode_cpu_threads, None);
    assert_eq!(file.ludicrous_mode_cpu_threads, None);
    assert!(file.eco_mode_cpu_options.is_empty());
    assert!(file.ludicrous_mode_cpu_options.is_empty());
    assert!(file.custom_mode_cpu_options.is_empty());
    assert!(!file.mmproxy_use_monero_fail);
    assert_eq!(file.mmproxy_monero_nodes, vec![String::from("https://xmr-01.tari.com")]);
    assert_eq!(file.custom_max_cpu_usage, None);
    assert_eq!(file.custom_max_gpu_usage, None);
    assert!(file.auto_update && file.custom_power_levels_enabled && file.sharing_enabled);
}

fn sample_file() -> AppConfigFromFile {
    let mut file = AppConfigFromFile::default();
    file.version = 10;
    file.mode = String::from("Ludicrous");
    file.display_mode = String::from("dark");
    file.auto_mining = false;
    file.mine_on_app_start = false;
    file.p2pool_enabled = false;
    file.last_binaries_update_timestamp =
        Timestamp { secs_since_epoch: 1_700_000_000, nanos_since_epoch: 5 };
    file.allow_telemetry = true;
    file.anon_id = String::from("abcdefghij0123456789");
    file.monero_address = String::from("4monero");
    file.gpu_mining_enabled = false;
    file.cpu_mining_enabled = false;
    file.has_system_language_been_proposed = true;
    file.should_always_use_system_language = true;
    file.should_auto_launch = true;
    file.application_language = String::from("pl");
    file.airdrop_ui_enabled = false;
    file.use_tor = false;
    file.paper_wallet_enabled = true;
    file.reset_earnings = true;
    file.eco_mode_cpu_threads = Some(2);
    file.ludicrous_mode_cpu_threads = Some(8);
    file.eco_mode_cpu_options = vec![String::from("--eco")];
    file.ludicrous_mode_cpu_options = vec![String::from("--fast"), String::from("--hot")];
    file.custom_mode_cpu_options = vec![String::from("--mine")];
    file.mmproxy_use_monero_fail = true;
    file.mmproxy_monero_nodes = vec![String::from("https://node.example")];
    file.custom_max_cpu_usage = Some(50);
    file.custom_max_gpu_usage = Some(60);
    file.auto_update = false;
    file.custom_power_levels_enabled = false;
    file.sharing_enabled = false;
    file
}

#[test]
fn loaded_settings_are_taken_over_on_esmeralda() {
    let mut config = AppConfig::new();
    config.apply_loaded(Some(sample_file()), Network::Esmeralda);
    assert_eq!(config.config_version, 10);
    assert_eq!(config.mode(), MiningMode::Ludicrous);
    assert_eq!(config.display_mode, DisplayMode::Dark);
    assert!(!config.auto_mining());
    assert!(!config.mine_on_app_start);
    assert!(!config.p2pool_enabled());
    assert_eq!(
        config.last_binaries_update_timestamp(),
        Timestamp { secs_since_epoch: 1_700_000_000, nanos_since_epoch: 5 }
    );
    assert!(config.allow_telemetry());
    assert_eq!(config.anon_id(), "abcdefghij0123456789");
    assert_eq!(config.monero_address(), "4monero");
    assert!(!config.gpu_mining_enabled());
    assert!(!config.cpu_mining_enabled());
    assert!(config.has_system_language_been_proposed);
    assert!(config.should_always_use_system_language);
    assert!(config.should_auto_launch());
    assert_eq!(config.application_language(), "pl");
    assert!(!config.airdrop_ui_enabled);
    assert!(!config.use_tor());
    assert!(config.paper_wallet_enabled);
    assert!(config.reset_earnings);
    assert_eq!(config.eco_mode_cpu_threads(), Some(2));
    assert_eq!(config.ludicrous_mode_cpu_threads(), Some(8));
    assert_eq!(config.eco_mode_cpu_options(), &vec![String::from("--eco")]);
    assert_eq!(
        config.ludicrous_mode_cpu_options(),
        &vec![String::from("--fast"), String::from("--hot")]
    );
    assert_eq!(config.custom_mode_cpu_options(), &vec![String::from("--mine")]);
    assert!(config.mmproxy_use_monero_fail());
    assert_eq!(config.mmproxy_monero_nodes(), &vec![String::from("https://node.example")]);
    assert_eq!(config.custom_cpu_usage(), Some(50));
    assert_eq!(config.custom_max_gpu_usage, Some(60));
    assert!(!config.auto_update());
    assert!(!config.custom_power_levels_enabled);
    assert!(!config.sharing_enabled);
    assert!(config.config_file.is_none());
}

#[test]
fn display_mode_and_reset_are_ignored_off_esmeralda() {
    for network in [
        Network::MainNet,
        Network::StageNet,
        Network::NextNet,
        Network::LocalNet,
        Network::Igor,
    ] {
        let mut config = AppConfig::new();
        config.apply_loaded(Some(sample_file()), network);
        assert_eq!(config.display_mode, DisplayMode::Light);
        assert!(!config.reset_earnings);
        assert_eq!(config.mode(), MiningMode::Ludicrous);
    }
}

#[test]
fn unknown_names_in_a_file_fall_back() {
    let mut file = sample_file();
    file.mode = String::from("Turbo");
    file.display_mode = String::from("neon");
    let mut config = AppConfig::new();
    config.mode = MiningMode::Custom;
    config.display_mode = DisplayMode::Dark;
    config.apply_loaded(Some(file), Network::Esmeralda);
    assert_eq!(config.mode(), MiningMode::Eco);
    assert_eq!(config.display_mode, DisplayMode::Light);
}

#[test]
fn old_files_are_migrated_step_by_step() {
    let expect = [
        (0u32, true, true, true, true),
        (6, true, true, true, true),
        (7, false, true, true, true),
        (8, false, false, true, true),
        (9, false, false, false, true),
        (10, false, false, false, false),
        (11, false, false, false, false),
    ];
    for (version, p2pool, airdrop, mine, auto_update) in expect {
        let mut file = sample_file();
        file.version = version;
        let mut config = AppConfig::new();
        config.apply_loaded(Some(file), Network::Esmeralda);
        assert_eq!(config.config_version, if version <= 9 { 10 } else { version });
        assert_eq!(config.p2pool_enabled(), p2pool);
        assert_eq!(config.airdrop_ui_enabled, airdrop);
        assert_eq!(config.mine_on_app_start, mine);
        assert_eq!(config.auto_update(), auto_update);
    }
}

#[test]
fn migration_of_the_versioned_settings() {
    let old = VersionedSettings {
        version: 7,
        p2pool_enabled: false,
        airdrop_ui_enabled: false,
        mine_on_app_start: false,
        auto_update: false,
    };
    let migrated = old.migrate();
    assert_eq!(
        migrated,
        VersionedSettings {
            version: 10,
            p2pool_enabled: false,
            airdrop_ui_enabled: true,
            mine_on_app_start: true,
            auto_update: true,
        }
    );
    assert_eq!(migrated.migrate(), migrated);
}

#[test]
fn unreadable_file_only_migrates() {
    let mut config = AppConfig::new();
    config.config_version = 3;
    config.p2pool_enabled = false;
    config.auto_update = false;
    config.monero_address = String::from("keep");
    config.apply_loaded(None, Network::MainNet);
    assert_eq!(config.config_version, 10);
    assert!(config.p2pool_enabled());
    assert!(config.auto_update());
    assert_eq!(config.monero_address(), "keep");
    let mut current = AppConfig::new();
    current.p2pool_enabled = false;
    current.migrate();
    assert!(!current.p2pool_enabled());
    assert_eq!(current.config_version, 10);
}

#[test]
fn apply_loaded_config_uses_the_running_network() {
    let mut config = AppConfig::new();
    config.apply_loaded_config(Some(sample_file()));
    assert!(config.config_version >= 10);
    assert_eq!(config.mode(), MiningMode::Ludicrous);
    assert!(config.display_mode == DisplayMode::Dark || config.display_mode == DisplayMode::Light);
    assert_eq!(config.reset_earnings, config.display_mode == DisplayMode::Dark);
}

#[test]
fn update_needs_a_settings_file() {
    let config = AppConfig::new();
    assert!(matches!(config.update_config_file(), Err(ConfigError::ConfigFileNotSet)));
    let config = with_file();
    let write = config.update_config_file().unwrap();
    assert_eq!(write.path, "/tmp/settings/app_config.json");
    assert_eq!(write.contents.version, 10);
    assert_eq!(write.contents.mode, "Eco");
    assert_eq!(write.contents.display_mode, "light");
    assert_eq!(write.contents.anon_id, config.anon_id());
    assert_eq!(write.contents.monero_address, DEFAULT_MONERO_ADDRESS);
    assert!(write.contents.allow_telemetry);
    assert_eq!(write.contents.mmproxy_monero_nodes, vec![String::from("https://xmr-01.tari.com")]);
}

#[test]
fn file_form_says_what_the_settings_hold() {
    let mut config = with_file();
    config.apply_loaded(Some(sample_file()), Network::Esmeralda);
    let file = config.file_form();
    let sample = sample_file();
    assert_eq!(file.version, sample.version);
    assert_eq!(file.mode, sample.mode);
    assert_eq!(file.display_mode, sample.display_mode);
    assert_eq!(file.auto_mining, sample.auto_mining);
    assert_eq!(file.mine_on_app_start, sample.mine_on_app_start);
    assert_eq!(file.p2pool_enabled, sample.p2pool_enabled);
    assert_eq!(file.last_binaries_update_timestamp, sample.last_binaries_update_timestamp);
    assert_eq!(file.allow_telemetry, sample.allow_telemetry);
    assert_eq!(file.anon_id, sample.anon_id);
    assert_eq!(file.monero_address, sample.monero_address);
    assert_eq!(file.gpu_mining_enabled, sample.gpu_mining_enabled);
    assert_eq!(file.cpu_mining_enabled, sample.cpu_mining_enabled);
    assert_eq!(file.application_language, sample.application_language);
    assert_eq!(file.reset_earnings, sample.reset_earnings);
    assert_eq!(file.eco_mode_cpu_threads, sample.eco_mode_cpu_threads);
    assert_eq!(file.ludicrous_mode_cpu_threads, sample.ludicrous_mode_cpu_threads);
    assert_eq!(file.eco_mode_cpu_options, sample.eco_mode_cpu_options);
    assert_eq!(file.ludicrous_mode_cpu_options, sample.ludicrous_mode_cpu_options);
    assert_eq!(file.custom_mode_cpu_options, sample.custom_mode_cpu_options);
    assert_eq!(file.mmproxy_monero_nodes, sample.mmproxy_monero_nodes);
    assert_eq!(file.custom_max_cpu_usage, sample.custom_max_cpu_usage);
    assert_eq!(file.custom_max_gpu_usage, sample.custom_max_gpu_usage);
    assert_eq!(file.sharing_enabled, sample.sharing_enabled);
}

#[test]
fn set_mode_rejects_unknown_names() {
    let mut config = with_file();
    let r = config.set_mode(String::from("Turbo"), Some(10), Some(20));
    assert!(matches!(r, Err(ConfigError::InvalidMode)));
    assert_eq!(config.mode(), MiningMode::Eco);
    assert_eq!(config.custom_cpu_usage(), None);
    assert_eq!(config.custom_max_gpu_usage, None);
}

#[test]
fn set_mode_without_a_file_switches_the_mode_only() {
    let mut config = AppConfig::new();
    let r = config.set_mode(String::from("Custom"), Some(10), Some(20));
    assert!(matches!(r, Err(ConfigError::ConfigFileNotSet)));
    assert_eq!(config.mode(), MiningMode::Custom);
    assert_eq!(config.custom_cpu_usage(), None);
    assert_eq!(config.custom_max_gpu_usage, None);
}

#[test]
fn set_mode_sets_the_limits_that_are_given() {
    let mut config = with_file();
    let write = config.set_mode(String::from("Custom"), Some(10), None).unwrap();
    assert_eq!(config.mode(), MiningMode::Custom);
    assert_eq!(config.custom_cpu_usage(), Some(10));
    assert_eq!(config.custom_max_gpu_usage, None);
    assert_eq!(write.contents.mode, "Custom");
    assert_eq!(write.contents.custom_max_cpu_usage, Some(10));
    assert_eq!(write.contents.custom_max_gpu_usage, None);
    let write = config.set_mode(String::from("Ludicrous"), None, Some(-3)).unwrap();
    assert_eq!(config.mode(), MiningMode::Ludicrous);
    assert_eq!(config.custom_cpu_usage(), Some(10));
    assert_eq!(config.custom_max_gpu_usage, Some(-3));
    assert_eq!(write.contents.mode, "Ludicrous");
    assert_eq!(write.path, "/tmp/settings/app_config.json");
}

#[test]
fn set_display_mode_by_name() {
    let mut config = with_file();
    let r = config.set_display_mode(String::from("neon"));
    assert!(matches!(r, Err(ConfigError::InvalidDisplayMode)));
    assert_eq!(config.display_mode, DisplayMode::Light);
    let write = config.set_display_mode(String::from("system")).unwrap();
    assert_eq!(config.display_mode, DisplayMode::System);
    assert_eq!(write.contents.display_mode, "system");
    let mut unset = AppConfig::new();
    let r = unset.set_display_mode(String::from("dark"));
    assert!(matches!(r, Err(ConfigError::ConfigFileNotSet)));
    assert_eq!(unset.display_mode, DisplayMode::Dark);
}

#[test]
fn setters_change_one_setting_and_ask_for_a_write() {
    let mut config = with_file();
    assert_eq!(config.set_max_gpu_usage(70).unwrap().contents.custom_max_gpu_usage, Some(70));
    assert_eq!(config.custom_max_gpu_usage, Some(70));
    assert_eq!(config.custom_gpu_usage(), None);
    assert_eq!(config.set_max_cpu_usage(30).unwrap().contents.custom_max_cpu_usage, Some(30));
    assert_eq!(config.custom_cpu_usage(), Some(30));
    assert_eq!(config.custom_gpu_usage(), Some(30));
    assert!(!config.set_cpu_mining_enabled(false).unwrap().contents.cpu_mining_enabled);
    assert!(!config.cpu_mining_enabled());
    assert!(!config.set_gpu_mining_enabled(false).unwrap().contents.gpu_mining_enabled);
    assert!(!config.gpu_mining_enabled());
    assert!(!config.set_p2pool_enabled(false).unwrap().contents.p2pool_enabled);
    assert!(!config.p2pool_enabled());
    assert!(config.set_should_auto_launch(true).unwrap().contents.should_auto_launch);
    assert!(config.should_auto_launch());
    assert!(!config.set_mine_on_app_start(false).unwrap().contents.mine_on_app_start);
    assert!(!config.mine_on_app_start);
    assert!(!config.set_allow_telemetry(false).unwrap().contents.allow_telemetry);
    assert!(!config.allow_telemetry());
    let w = config.set_monero_address(String::from("4abc")).unwrap();
    assert_eq!(w.contents.monero_address, "4abc");
    assert_eq!(config.monero_address(), "4abc");
    let stamp = Timestamp { secs_since_epoch: 42, nanos_since_epoch: 7 };
    let w = config.set_last_binaries_update_timestamp(stamp).unwrap();
    assert_eq!(w.contents.last_binaries_update_timestamp, stamp);
    assert_eq!(config.last_binaries_update_timestamp(), stamp);
    let w = config.set_application_language(String::from("de")).unwrap();
    assert_eq!(w.contents.application_language, "de");
    assert_eq!(config.application_language(), "de");
    assert!(config.set_should_always_use_system_language(true).unwrap().contents.should_always_use_system_language);
    assert!(!config.set_use_tor(false).unwrap().contents.use_tor);
    assert!(!config.use_tor());
    assert!(!config.set_auto_update(false).unwrap().contents.auto_update);
    assert!(!config.auto_update());
    let w = config.set_monerod_config(true, vec![String::from("a"), String::from("b")]).unwrap();
    assert!(w.contents.mmproxy_use_monero_fail);
    assert_eq!(w.contents.mmproxy_monero_nodes, vec![String::from("a"), String::from("b")]);
    assert!(config.mmproxy_use_monero_fail());
    assert_eq!(config.mmproxy_monero_nodes(), &vec![String::from("a"), String::from("b")]);
    assert_eq!(config.mode(), MiningMode::Eco);
}

#[test]
fn setters_without_a_file_still_change_the_setting() {
    let mut config = AppConfig::new();
    assert!(matches!(config.set_use_tor(false), Err(ConfigError::ConfigFileNotSet)));
    assert!(!config.use_tor());
    assert!(matches!(config.set_max_cpu_usage(5), Err(ConfigError::ConfigFileNotSet)));
    assert_eq!(config.custom_cpu_usage(), Some(5));
}

#[test]
fn language_is_proposed_once_and_only_on_request() {
    let mut config = with_file();
    let r = config.propose_language(Some(String::from("fr-FR"))).unwrap();
    assert!(r.is_none());
    assert_eq!(config.application_language(), "en");
    assert!(!config.has_system_language_been_proposed);

    config.should_always_use_system_language = true;
    let w = config.propose_language(Some(String::from("fr-FR"))).unwrap().unwrap();
    assert_eq!(config.application_language(), "fr-FR");
    assert!(config.has_system_language_been_proposed);
    assert_eq!(w.contents.application_language, "fr-FR");
    assert!(w.contents.has_system_language_been_proposed);

    let r = config.propose_language(Some(String::from("it-IT"))).unwrap();
    assert!(r.is_none());
    assert_eq!(config.application_language(), "fr-FR");
}

#[test]
fn language_falls_back_to_american_english() {
    let mut config = with_file();
    config.should_always_use_system_language = true;
    let w = config.propose_language(None).unwrap().unwrap();
    assert_eq!(config.application_language(), "en-US");
    assert_eq!(w.contents.application_language, "en-US");
    let mut unset = AppConfig::new();
    unset.should_always_use_system_language = true;
    let r = unset.propose_language(None);
    assert!(matches!(r, Err(ConfigError::ConfigFileNotSet)));
    assert_eq!(unset.application_language(), "en-US");
    assert!(unset.has_system_language_been_proposed);
}

#[test]
fn system_language_is_proposed_from_the_system() {
    let mut config = with_file();
    config.should_always_use_system_language = true;
    let w = config.propose_system_language().unwrap().unwrap();
    assert!(config.has_system_language_been_proposed);
    assert!(!config.application_language().is_empty());
    assert_eq!(w.contents.application_language, config.application_language());
    let mut other = with_file();
    assert!(other.propose_system_language().unwrap().is_none());
    assert_eq!(other.application_language(), "en");
}

#[test]
fn load_or_create_settles_on_the_file() {
    assert_eq!(CONFIG_FILE_NAME, "app_config.json");
    let mut config = AppConfig::new();
    let w = config.load_or_create_on(String::from("/cfg/app_config.json"), None, Network::MainNet);
    assert_eq!(config.config_file, Some(String::from("/cfg/app_config.json")));
    assert_eq!(w.path, "/cfg/app_config.json");
    assert_eq!(w.contents.mode, "Eco");
    assert_eq!(w.contents.version, 10);

    let mut config = AppConfig::new();
    let mut file = sample_file();
    file.version = 8;
    let w = config.load_or_create_on(
        String::from("/cfg/app_config.json"),
        Some(Some(file)),
        Network::Esmeralda,
    );
    assert_eq!(config.config_file, Some(String::from("/cfg/app_config.json")));
    assert_eq!(config.config_version, 10);
    assert!(config.mine_on_app_start);
    assert!(config.auto_update());
    assert!(!config.p2pool_enabled());
    assert_eq!(w.contents.version, 10);
    assert_eq!(w.contents.mode, "Ludicrous");
    assert_eq!(w.contents.display_mode, "dark");

    let mut config = AppConfig::new();
    config.config_version = 2;
    let w = config.load_or_create(String::from("/cfg/app_config.json"), Some(None));
    assert_eq!(config.config_version, 10);
    assert_eq!(w.path, "/cfg/app_config.json");
    assert_eq!(w.contents.version, 10);
}
