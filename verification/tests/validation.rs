use validator_settings::BaseSettings;
use validator_settings::ConfigPath;
use validator_settings::Duration;
use validator_settings::ErrorCause;
use validator_settings::RawBaseSettings;
use validator_settings::RawChainConf;
use validator_settings::RawCheckpointSyncerConf;
use validator_settings::RawSignerConf;
use validator_settings::RawValidatorSettings;
use validator_settings::StrOrInt;
use validator_settings::ValidatorSettings;

fn ethereum_registry() -> RawBaseSettings {
    RawBaseSettings {
        chains: vec![
            RawChainConf { name: "ethereum".to_string(), domainid: Some(StrOrInt::Int(1)) },
            RawChainConf { name: "arbitrum".to_string(), domainid: Some(StrOrInt::Str("42161".to_string())) },
        ],
    }
}

fn valid_raw() -> RawValidatorSettings {
    RawValidatorSettings {
        base: ethereum_registry(),
        originchainname: Some("ethereum".to_string()),
        validator: Some(RawSignerConf { key: Some("0xabc".to_string()) }),
        checkpointsyncer: Some(RawCheckpointSyncerConf { location: Some("/tmp/checkpoints".to_string()) }),
        reorgperiod: Some(StrOrInt::Str("5".to_string())),
        interval: Some(StrOrInt::Str("10".to_string())),
    }
}

#[test]
fn valid_input_builds_settings() {
    let cwp = ConfigPath::new();
    let settings = ValidatorSettings::from_config_filtered(valid_raw(), &cwp).unwrap();
    assert_eq!(settings.reorg_period, 5);
    assert_eq!(settings.interval, Duration::from_secs(10));
    assert_eq!(settings.origin_chain.name, "ethereum");
    assert_eq!(settings.origin_chain.id, 1);
    assert_eq!(settings.validator.key, "0xabc");
    assert_eq!(settings.checkpoint_syncer.location, "/tmp/checkpoints");
    assert_eq!(settings.base.chains.len(), 1);
}

#[test]
fn same_input_twice_builds_identical_settings() {
    let cwp = ConfigPath::new();
    let first = ValidatorSettings::from_config_filtered(valid_raw(), &cwp).unwrap();
    let second = ValidatorSettings::from_config_filtered(valid_raw(), &cwp).unwrap();
    assert_eq!(first, second);
}

#[test]
fn missing_origin_chain_name_is_the_only_error() {
    let cwp = ConfigPath::new();
    let mut raw = valid_raw();
    raw.originchainname = None;
    let report = ValidatorSettings::from_config_filtered(raw, &cwp).unwrap_err();
    assert_eq!(report.len(), 1);
    assert_eq!(report.entries[0].path.dotted(), "originchainname");
    assert_eq!(report.entries[0].cause, ErrorCause::MissingField);
}

#[test]
fn missing_reorg_period_does_not_cascade() {
    let cwp = ConfigPath::new();
    let mut raw = valid_raw();
    raw.reorgperiod = None;
    let report = ValidatorSettings::from_config_filtered(raw, &cwp).unwrap_err();
    assert_eq!(report.len(), 1);
    assert_eq!(report.entries[0].path.dotted(), "reorgperiod");
    assert_eq!(report.entries[0].cause, ErrorCause::MissingField);
}

#[test]
fn malformed_reorg_period_keeps_its_cause() {
    let cwp = ConfigPath::new();
    let mut raw = valid_raw();
    raw.reorgperiod = Some(StrOrInt::Str("five".to_string()));
    let report = ValidatorSettings::from_config_filtered(raw, &cwp).unwrap_err();
    assert_eq!(report.len(), 1);
    assert_eq!(report.entries[0].path.dotted(), "reorgperiod");
    assert_eq!(
        report.entries[0].cause,
        ErrorCause::MalformedField(validator_settings::CoerceError::NotDecimal)
    );
}

#[test]
fn negative_interval_keeps_its_cause() {
    let cwp = ConfigPath::new();
    let mut raw = valid_raw();
    raw.interval = Some(StrOrInt::Int(-3));
    let report = ValidatorSettings::from_config_filtered(raw, &cwp).unwrap_err();
    assert_eq!(report.len(), 1);
    assert_eq!(report.entries[0].path.dotted(), "interval");
    assert_eq!(
        report.entries[0].cause,
        ErrorCause::MalformedField(validator_settings::CoerceError::Negative)
    );
}

#[test]
fn failed_name_suppresses_lookup_but_not_other_errors() {
    let cwp = ConfigPath::new();
    let mut raw = valid_raw();
    raw.originchainname = None;
    raw.interval = Some(StrOrInt::Str("soon".to_string()));
    let report = ValidatorSettings::from_config_filtered(raw, &cwp).unwrap_err();
    assert_eq!(report.len(), 2);
    assert_eq!(report.entries[0].path.dotted(), "interval");
    assert_eq!(
        report.entries[0].cause,
        ErrorCause::MalformedField(validator_settings::CoerceError::NotDecimal)
    );
    assert_eq!(report.entries[1].path.dotted(), "originchainname");
    assert_eq!(report.entries[1].cause, ErrorCause::MissingField);
    for entry in &report.entries {
        assert_ne!(entry.cause, ErrorCause::UnresolvedReference);
    }
}

#[test]
fn unknown_name_is_exactly_one_unresolved_reference() {
    let cwp = ConfigPath::new();
    let mut raw = valid_raw();
    raw.originchainname = Some("polygon".to_string());
    let report = ValidatorSettings::from_config_filtered(raw, &cwp).unwrap_err();
    assert_eq!(report.len(), 1);
    assert_eq!(report.entries[0].path.dotted(), "originchainname");
    assert_eq!(report.entries[0].cause, ErrorCause::UnresolvedReference);
}

#[test]
fn missing_nested_signer_key_is_reported_below_the_field() {
    let cwp = ConfigPath::new();
    let mut raw = valid_raw();
    raw.validator = Some(RawSignerConf { key: None });
    let report = ValidatorSettings::from_config_filtered(raw, &cwp).unwrap_err();
    assert_eq!(report.len(), 1);
    assert_eq!(report.entries[0].path.dotted(), "validator.key");
    assert_eq!(report.entries[0].cause, ErrorCause::MissingField);
}

#[test]
fn all_fields_missing_are_reported_in_order() {
    let cwp = ConfigPath::new();
    let raw = RawValidatorSettings {
        base: RawBaseSettings { chains: vec![] },
        originchainname: None,
        validator: None,
        checkpointsyncer: None,
        reorgperiod: None,
        interval: None,
    };
    let report = ValidatorSettings::from_config_filtered(raw, &cwp).unwrap_err();
    let dotted: Vec<String> = report.entries.iter().map(|e| e.path.dotted()).collect();
    assert_eq!(
        dotted,
        vec!["validator", "checkpointsyncer", "reorgperiod", "interval", "originchainname"]
    );
    for entry in &report.entries {
        assert_eq!(entry.cause, ErrorCause::MissingField);
    }
}

#[test]
fn malformed_unselected_chain_is_skipped_by_the_filter() {
    let cwp = ConfigPath::new();
    let mut raw = valid_raw();
    raw.base.chains.push(RawChainConf { name: "broken".to_string(), domainid: None });
    let settings = ValidatorSettings::from_config_filtered(raw, &cwp).unwrap();
    assert_eq!(settings.origin_chain.name, "ethereum");
}

#[test]
fn malformed_selected_chain_fails_the_registry_parse() {
    let cwp = ConfigPath::new();
    let raw = RawBaseSettings {
        chains: vec![RawChainConf { name: "broken".to_string(), domainid: None }],
    };
    let err = raw.parse_config_with_filter(&cwp, None).unwrap_err();
    let mut sink = validator_settings::ErrorAggregator::new();
    sink.merge(err);
    let report = sink.into_report();
    assert_eq!(report.len(), 1);
    assert_eq!(report.entries[0].path.dotted(), "chains.broken.domainid");
    assert_eq!(report.entries[0].cause, ErrorCause::MissingField);
}

#[test]
fn lookup_domain_finds_the_first_match() {
    let cwp = ConfigPath::new();
    let raw = RawBaseSettings {
        chains: vec![
            RawChainConf { name: "ethereum".to_string(), domainid: Some(StrOrInt::Int(1)) },
            RawChainConf { name: "ethereum".to_string(), domainid: Some(StrOrInt::Int(2)) },
        ],
    };
    let base: BaseSettings = raw.parse_config_with_filter(&cwp, None).unwrap();
    let found = base.lookup_domain("ethereum").unwrap();
    assert_eq!(found.id, 1);
    assert!(base.lookup_domain("polygon").is_none());
}

#[test]
fn report_lines_render_paths_and_causes() {
    let cwp = ConfigPath::new();
    let mut raw = valid_raw();
    raw.validator = None;
    raw.reorgperiod = Some(StrOrInt::Str("many".to_string()));
    let report = ValidatorSettings::from_config_filtered(raw, &cwp).unwrap_err();
    let lines = report.lines();
    assert_eq!(
        lines,
        vec![
            "validator: missing field".to_string(),
            "reorgperiod: malformed field: not a decimal string".to_string(),
        ]
    );
}
