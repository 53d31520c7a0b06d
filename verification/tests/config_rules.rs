use wardrobe::config::{
    skin_source_revision, validate, ConfigAction, ConfigError, ConfigEvent, ConfigWatcher, FileRevision,
    SkinConfig, SkinDefinition, SkinRule, SkinTable, DEFAULT_POLL_INTERVAL_MS,
};
use wardrobe::logging::LogLevel;

fn definition(enabled: bool, txd: &str, dff: &str) -> SkinDefinition {
    SkinDefinition { enabled, txd_path: txd.to_owned(), dff_path: dff.to_owned() }
}

fn rule(profile: &str, name: Option<&str>, model: Option<i16>) -> SkinRule {
    SkinRule {
        profile_id: profile.to_owned(),
        enabled: true,
        player_name: name.map(str::to_owned),
        server_model_id: model,
    }
}

fn config(skins: Vec<(&str, SkinDefinition)>, rules: Vec<SkinRule>) -> SkinConfig {
    let mut table = SkinTable::new();
    for (id, definition) in skins {
        table.insert(id.to_owned(), definition);
    }
    let mut config = SkinConfig::default();
    config.skins = table;
    config.rules = rules;
    config
}

fn error_of(config: SkinConfig) -> ConfigError {
    match validate(config) {
        Ok(_) => panic!("configuration was accepted"),
        Err(error) => error,
    }
}

#[test]
fn disabled_profiles_accept_empty_asset_paths() {
    let config = validate(config(vec![("draft", definition(false, "", ""))], vec![])).unwrap();

    assert!(!config.skins.get("draft").unwrap().enabled);
}

#[test]
fn defaults_runtime_settings_for_existing_configurations() {
    let config = validate(SkinConfig::default()).unwrap();

    assert_eq!(config.poll_interval_ms, DEFAULT_POLL_INTERVAL_MS);
    assert_eq!(config.log_level, LogLevel::Info);
}

#[test]
fn rejects_an_unsafe_complete_scan_interval() {
    let mut unsafe_interval = SkinConfig::default();
    unsafe_interval.poll_interval_ms = 99;
    let error = error_of(unsafe_interval).message();

    assert!(error.contains("poll_interval_ms must be between 100 and 60000"));
}

/// Reads the `staff` profile of a configuration text the way the settings
/// file is read: known keys only, `enabled` defaulting to true.
fn staff_profile(text: &str) -> SkinDefinition {
    let value: serde_json::Value = serde_json::from_str(text).unwrap();
    let staff = &value["skins"]["staff"];
    SkinDefinition {
        enabled: staff.get("enabled").and_then(|enabled| enabled.as_bool()).unwrap_or(true),
        txd_path: staff["txd_path"].as_str().unwrap().to_owned(),
        dff_path: staff["dff_path"].as_str().unwrap().to_owned(),
    }
}

#[test]
fn donor_free_profiles_and_legacy_donor_profiles_are_equivalent() {
    let donor_free = staff_profile(
        r#"{
            "skins": {
                "staff": {
                    "txd_path": "staff.txd",
                    "dff_path": "staff.dff"
                }
            },
            "rules": []
        }"#,
    );
    let legacy = staff_profile(
        r#"{
            "skins": {
                "staff": {
                    "txd_path": "staff.txd",
                    "dff_path": "staff.dff",
                    "donor_model_id": 18000
                }
            },
            "rules": []
        }"#,
    );
    let donor_free = validate(config(vec![("staff", donor_free)], vec![])).unwrap();
    let legacy = validate(config(vec![("staff", legacy)], vec![])).unwrap();

    let a = donor_free.skins.get("staff").unwrap();
    let b = legacy.skins.get("staff").unwrap();
    assert!(a.same_as(b));
    assert!(skin_source_revision(a, FileRevision::Missing, FileRevision::Missing)
        .same_as(&skin_source_revision(b, FileRevision::Missing, FileRevision::Missing)));
}

#[test]
fn rules_prefer_combined_then_player_then_model_matches() {
    let mut config = validate(config(
        vec![
            ("combined", definition(true, "combined.txd", "combined.dff")),
            ("player", definition(true, "player.txd", "player.dff")),
            ("model", definition(true, "model.txd", "model.dff")),
        ],
        vec![
            rule("model", None, Some(67)),
            rule("player", Some("Jacob_Spencer"), None),
            rule("combined", Some("Jacob_Spencer"), Some(67)),
        ],
    ))
    .unwrap();

    assert_eq!(config.matching_rule(Some("Jacob_Spencer"), 67).unwrap().profile_id, "combined");
    assert_eq!(config.matching_rule(Some("Jacob_Spencer"), 7).unwrap().profile_id, "player");
    assert_eq!(config.matching_rule(Some("Other_Player"), 67).unwrap().profile_id, "model");

    assert_eq!(config.matching_rule(None, 67).unwrap().profile_id, "model");
    assert!(config.matching_rule(None, 7).is_none());

    config.skins.insert("combined".to_owned(), definition(false, "combined.txd", "combined.dff"));
    assert_eq!(config.matching_rule(Some("Jacob_Spencer"), 67).unwrap().profile_id, "player");
}

#[test]
fn the_earliest_rule_wins_among_equal_priorities() {
    let config = config(
        vec![("a", definition(true, "a.txd", "a.dff")), ("b", definition(true, "b.txd", "b.dff"))],
        vec![rule("a", None, Some(10)), rule("b", Some("Jacob_Spencer"), None), rule("b", None, Some(11))],
    );
    assert_eq!(config.matching_rule(Some("x"), 10).unwrap().profile_id, "a");
    assert_eq!(config.matching_rule(Some("x"), 11).unwrap().profile_id, "b");
}

#[test]
fn disabled_rules_never_match() {
    let mut disabled = rule("a", None, Some(10));
    disabled.enabled = false;
    let config = config(vec![("a", definition(true, "a.txd", "a.dff"))], vec![disabled]);
    assert!(config.matching_rule(None, 10).is_none());
}

#[test]
fn an_enabled_profile_needs_both_asset_paths() {
    let error = error_of(config(vec![("broken", definition(true, "a.txd", ""))], vec![]));
    assert!(matches!(&error, ConfigError::EmptyAssetPath { skin_id } if skin_id.as_str() == "broken"));
    assert_eq!(error.message(), "skin broken has an empty asset path");
}

#[test]
fn a_rule_must_name_a_known_profile() {
    let error = error_of(config(vec![], vec![rule("ghost", None, Some(7))]));
    assert!(matches!(error, ConfigError::UnknownProfile { rule: 0 }));
    assert_eq!(error.message(), "rule 0 refers to an unknown skin profile");
}

#[test]
fn a_rule_player_name_may_not_be_empty() {
    let error = error_of(config(vec![("a", definition(true, "a.txd", "a.dff"))], vec![rule("a", Some(""), None)]));
    assert!(matches!(error, ConfigError::EmptyPlayerName { rule: 0 }));
    assert_eq!(error.message(), "rule 0 has an empty player name");
}

#[test]
fn a_rule_model_must_be_a_gta_model() {
    let error = error_of(config(
        vec![("a", definition(true, "a.txd", "a.dff"))],
        vec![rule("a", None, Some(7)), rule("a", None, Some(20000))],
    ));
    assert!(matches!(error, ConfigError::InvalidModelId { rule: 1 }));
    assert_eq!(error.message(), "rule 1 has an invalid server model ID");
    let negative = error_of(config(vec![("a", definition(true, "a.txd", "a.dff"))], vec![rule("a", None, Some(-1))]));
    assert!(matches!(negative, ConfigError::InvalidModelId { rule: 0 }));
}

#[test]
fn a_rule_needs_a_selector() {
    let error = error_of(config(vec![("a", definition(true, "a.txd", "a.dff"))], vec![rule("a", None, None)]));
    assert!(matches!(error, ConfigError::MissingSelector { rule: 0 }));
    assert_eq!(error.message(), "rule 0 needs a player name or server model ID");
}

#[test]
fn duplicate_selectors_are_rejected() {
    let error = error_of(config(
        vec![("a", definition(true, "a.txd", "a.dff")), ("b", definition(true, "b.txd", "b.dff"))],
        vec![rule("a", Some("P"), Some(7)), rule("b", Some("Q"), Some(7)), rule("b", Some("P"), Some(7))],
    ));
    assert!(matches!(error, ConfigError::DuplicateRule { rule: 2 }));
    assert_eq!(error.message(), "rule 2 duplicates an earlier rule");
}

#[test]
fn the_interval_bounds_are_inclusive() {
    for ms in [100, 2000, 60000] {
        let mut config = SkinConfig::default();
        config.poll_interval_ms = ms;
        assert!(validate(config).is_ok());
    }
    let mut too_slow = SkinConfig::default();
    too_slow.poll_interval_ms = 60001;
    assert!(matches!(error_of(too_slow), ConfigError::PollInterval));
}

#[test]
fn poll_interval_is_the_configured_delay() {
    let mut config = SkinConfig::default();
    config.poll_interval_ms = 250;
    assert_eq!(config.poll_interval(), std::time::Duration::from_millis(250));
}

fn present(modified_ns: i128, length: u64) -> FileRevision {
    FileRevision::Present { modified_ns, length }
}

#[test]
fn the_watcher_inspects_at_most_once_per_second() {
    let mut watcher = ConfigWatcher::new();
    assert!(matches!(watcher.poll_change(ConfigEvent::Frame { now_ms: 5000 }), ConfigAction::InspectFile));
    assert!(matches!(watcher.poll_change(ConfigEvent::Frame { now_ms: 5999 }), ConfigAction::Idle));
    assert!(matches!(watcher.poll_change(ConfigEvent::Frame { now_ms: 6000 }), ConfigAction::InspectFile));
}

#[test]
fn the_watcher_reads_only_a_changed_file() {
    let mut watcher = ConfigWatcher::new();
    assert!(matches!(watcher.poll_change(ConfigEvent::Inspected { revision: present(1, 10) }), ConfigAction::ReadFile));
    assert!(matches!(watcher.poll_change(ConfigEvent::Inspected { revision: present(1, 10) }), ConfigAction::Idle));
    assert!(matches!(watcher.poll_change(ConfigEvent::Inspected { revision: present(2, 10) }), ConfigAction::ReadFile));
    assert!(matches!(watcher.poll_change(ConfigEvent::Inspected { revision: FileRevision::Missing }), ConfigAction::Removed));
    assert!(matches!(
        watcher.poll_change(ConfigEvent::Inspected { revision: FileRevision::Unreadable("denied".to_owned()) }),
        ConfigAction::Uninspectable(e) if e == "denied"
    ));
}

#[test]
fn the_watcher_applies_only_valid_configurations() {
    let mut watcher = ConfigWatcher::new();
    let applied = watcher.poll_change(ConfigEvent::Parsed { result: Ok(SkinConfig::default()) });
    assert!(matches!(applied, ConfigAction::Apply(c) if c.poll_interval_ms == DEFAULT_POLL_INTERVAL_MS));
    let mut invalid = SkinConfig::default();
    invalid.poll_interval_ms = 1;
    assert!(matches!(
        watcher.poll_change(ConfigEvent::Parsed { result: Ok(invalid) }),
        ConfigAction::Rejected(e) if e == "poll_interval_ms must be between 100 and 60000"
    ));
    assert!(matches!(
        watcher.poll_change(ConfigEvent::Parsed { result: Err("bad json".to_owned()) }),
        ConfigAction::Rejected(e) if e == "bad json"
    ));
}

#[test]
fn inserting_a_profile_twice_replaces_it() {
    let mut table = SkinTable::new();
    table.insert("a".to_owned(), definition(true, "1.txd", "1.dff"));
    table.insert("a".to_owned(), definition(false, "2.txd", "2.dff"));
    assert_eq!(table.len(), 1);
    assert_eq!(table.get("a").unwrap().txd_path, "2.txd");
    assert!(table.get("b").is_none());
}

#[test]
fn set_level_moves_the_process_wide_filter() {
    wardrobe::logging::set_level(LogLevel::Warn);
    assert_eq!(log::max_level(), log::LevelFilter::Warn);
    wardrobe::logging::set_level(LogLevel::Trace);
    assert_eq!(log::max_level(), log::LevelFilter::Trace);
}
