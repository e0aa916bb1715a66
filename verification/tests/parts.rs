use validator_settings::CoerceError;
use validator_settings::ConfigPath;
use validator_settings::ErrorAggregator;
use validator_settings::ErrorCause;
use validator_settings::RawSignerConf;
use validator_settings::StrOrInt;

#[test]
fn empty_path_renders_empty() {
    assert_eq!(ConfigPath::new().dotted(), "");
}

#[test]
fn joined_path_renders_dotted() {
    let p = ConfigPath::new().join("validator").join("checkpointsyncer").join("interval");
    assert_eq!(p.dotted(), "validator.checkpointsyncer.interval");
    assert_eq!(p.len(), 3);
}

#[test]
fn path_equality_is_segment_equality() {
    let p = ConfigPath::new().join("a").join("b");
    let q = ConfigPath::new().join("a").join("b");
    let r = ConfigPath::new().join("a").join("c");
    let s = ConfigPath::new().join("a");
    assert!(p.equals(&q));
    assert!(!p.equals(&r));
    assert!(!p.equals(&s));
}

#[test]
fn join_leaves_the_receiver_alone() {
    let p = ConfigPath::new().join("a");
    let q = p.join("b");
    assert_eq!(p.dotted(), "a");
    assert_eq!(q.dotted(), "a.b");
}

#[test]
fn decimal_strings_coerce_exactly() {
    assert_eq!(StrOrInt::Str("30".to_string()).to_u64(), Ok(30));
    assert_eq!(StrOrInt::Str("0".to_string()).to_u64(), Ok(0));
    assert_eq!(StrOrInt::Str("007".to_string()).to_u64(), Ok(7));
    assert_eq!(StrOrInt::Str("18446744073709551615".to_string()).to_u64(), Ok(u64::MAX));
}

#[test]
fn bad_strings_are_not_decimal() {
    assert_eq!(StrOrInt::Str("".to_string()).to_u64(), Err(CoerceError::NotDecimal));
    assert_eq!(StrOrInt::Str("12x".to_string()).to_u64(), Err(CoerceError::NotDecimal));
    assert_eq!(StrOrInt::Str("-4".to_string()).to_u64(), Err(CoerceError::NotDecimal));
    assert_eq!(StrOrInt::Str(" 4".to_string()).to_u64(), Err(CoerceError::NotDecimal));
}

#[test]
fn too_large_strings_overflow() {
    assert_eq!(StrOrInt::Str("18446744073709551616".to_string()).to_u64(), Err(CoerceError::TooLarge));
    assert_eq!(
        StrOrInt::Str("99999999999999999999999".to_string()).to_u64(),
        Err(CoerceError::TooLarge)
    );
}

#[test]
fn integers_coerce_when_not_negative() {
    assert_eq!(StrOrInt::Int(5).to_u64(), Ok(5));
    assert_eq!(StrOrInt::Int(0).to_u64(), Ok(0));
    assert_eq!(StrOrInt::Int(i64::MAX).to_u64(), Ok(i64::MAX as u64));
    assert_eq!(StrOrInt::Int(-1).to_u64(), Err(CoerceError::Negative));
}

#[test]
fn aggregator_keeps_recording_order_and_merges() {
    let mut agg = ErrorAggregator::new();
    assert!(agg.is_empty());
    agg.record(ConfigPath::new().join("a"), ErrorCause::MissingField);
    agg.record(
        ConfigPath::new().join("b"),
        ErrorCause::MalformedField(CoerceError::TooLarge),
    );
    let mut sub = ErrorAggregator::new();
    sub.record(ConfigPath::new().join("c").join("d"), ErrorCause::UnresolvedReference);
    agg.merge(sub);
    assert!(!agg.is_empty());
    let report = agg.into_report();
    assert_eq!(report.len(), 3);
    assert_eq!(report.entries[0].path.dotted(), "a");
    assert_eq!(report.entries[1].path.dotted(), "b");
    assert_eq!(report.entries[2].path.dotted(), "c.d");
    assert_eq!(report.entries[2].cause, ErrorCause::UnresolvedReference);
}

#[test]
fn causes_describe_themselves() {
    assert_eq!(ErrorCause::MissingField.describe(), "missing field");
    assert_eq!(
        ErrorCause::MalformedField(CoerceError::Negative).describe(),
        "malformed field: negative value"
    );
    assert_eq!(ErrorCause::UnresolvedReference.describe(), "reference not found");
}

#[test]
fn nested_signer_parse_reports_below_its_prefix() {
    let cwp = ConfigPath::new().join("validator");
    let err = RawSignerConf { key: None }.parse_config(&cwp).unwrap_err();
    let mut sink = ErrorAggregator::new();
    sink.merge(err);
    let report = sink.into_report();
    assert_eq!(report.len(), 1);
    assert_eq!(report.entries[0].path.dotted(), "validator.key");
    let ok = RawSignerConf { key: Some("k".to_string()) }
        .parse_config(&ConfigPath::new().join("validator"))
        .unwrap();
    assert_eq!(ok.key, "k");
}
