use tx_relay::validation::{CoreReply, CoreResult, TransactionValidator, ValidationConfig, ValidationError};

fn accepting_reply() -> CoreReply {
    CoreReply {
        error: None,
        result: Some(vec![CoreResult { allowed: Some(true), reject_reason: None }]),
    }
}

#[test]
fn test_validation_config_default() {
    let config = ValidationConfig::default();

    assert_eq!(config.enable_validation, true);
    assert_eq!(config.enable_precheck, true);
    assert_eq!(config.validation_timeout_ms, 5000);
}

#[test]
fn test_validation_config_with_cache() {
    let config = ValidationConfig::default();

    assert_eq!(config.enable_validation, true);
    assert_eq!(config.enable_precheck, true);
    assert_eq!(config.validation_timeout_ms, 5000);
    assert_eq!(config.cache_ttl_seconds, 600);
    assert_eq!(config.cache_size, 1000);
}

#[test]
fn test_validation_disabled() {
    let mut config = ValidationConfig::default();
    config.enable_validation = false;

    let mut validator = TransactionValidator::new(config, 18332);

    let result = validator.validate("invalid_hex", 0, &accepting_reply());
    assert!(result.is_ok());
}

#[test]
fn test_precheck_disabled() {
    let mut config = ValidationConfig::default();
    config.enable_precheck = false;

    let mut validator = TransactionValidator::new(config, 18332);

    let invalid_tx_hex = "a".repeat(120);
    let result = validator.validate(&invalid_tx_hex, 0, &accepting_reply());
    assert!(result.is_err());

    if let Err(e) = result {
        assert!(!matches!(e, ValidationError::InvalidSize(_)));
        assert!(matches!(e, ValidationError::InvalidStructure));
    }
}

#[test]
fn test_quick_validation_empty_transaction() {
    let config = ValidationConfig::default();
    let validator = TransactionValidator::new(config, 18332);

    let result = validator.quick_validation_checks("");
    assert!(matches!(result, Err(ValidationError::EmptyTransaction)));
}

#[test]
fn test_quick_validation_invalid_hex() {
    let config = ValidationConfig::default();
    let validator = TransactionValidator::new(config, 18332);

    let result = validator.quick_validation_checks("hello world");
    assert!(matches!(result, Err(ValidationError::InvalidHex)));

    let result = validator.quick_validation_checks("abcdefg");
    assert!(matches!(result, Err(ValidationError::InvalidHex)));
}

#[test]
fn test_quick_validation_invalid_size() {
    let config = ValidationConfig::default();
    let validator = TransactionValidator::new(config, 18332);

    let small_tx = "a".repeat(118);
    let result = validator.quick_validation_checks(&small_tx);
    assert!(matches!(result, Err(ValidationError::InvalidSize(59))));

    let large_tx = "a".repeat(800_002);
    let result = validator.quick_validation_checks(&large_tx);
    assert!(matches!(result, Err(ValidationError::InvalidSize(400_001))));
}

#[test]
fn test_quick_validation_valid_hex() {
    let config = ValidationConfig::default();
    let validator = TransactionValidator::new(config, 18332);

    let valid_hex = "a".repeat(120);
    let result = validator.quick_validation_checks(&valid_hex);
    assert!(result.is_ok());

    let mixed_case_hex = "AbCdEf0123456789".repeat(8);
    let result = validator.quick_validation_checks(&mixed_case_hex);
    assert!(result.is_ok());
}

#[test]
fn test_validation_error_display() {
    let errors = vec![
        ValidationError::EmptyTransaction,
        ValidationError::InvalidHex,
        ValidationError::InvalidSize(100),
        ValidationError::InvalidStructure,
        ValidationError::RecentlyProcessed("test_txid".to_string()),
        ValidationError::BitcoinCoreRejection("test reason".to_string()),
    ];

    for error in errors {
        let error_string = error.message();
        assert!(!error_string.is_empty());
    }
}

#[test]
fn test_extract_txid() {
    let config = ValidationConfig::default();
    let validator = TransactionValidator::new(config, 18332);

    let result = validator.extract_txid("invalid_hex");
    assert!(matches!(result, Err(ValidationError::InvalidHex)));

    let invalid_tx_hex = "a".repeat(120);
    let result = validator.extract_txid(&invalid_tx_hex);
    assert!(matches!(result, Err(ValidationError::InvalidStructure)));
}

#[test]
fn test_cache_functionality() {
    let config = ValidationConfig::default();
    let mut validator = TransactionValidator::new(config, 18332);

    let test_txid = "test_transaction_id";

    assert!(!validator.is_recently_processed(test_txid, 1_000));

    validator.cache_transaction(test_txid, 1_000);

    assert!(validator.is_recently_processed(test_txid, 1_000));
}

#[test]
fn test_spam_cache_recently_processed() {
    let config = ValidationConfig::default();
    let mut validator = TransactionValidator::new(config, 18332);

    let txid = "test_transaction_id";

    assert!(!validator.is_recently_processed(txid, 5));

    validator.cache_transaction(txid, 5);

    assert!(validator.is_recently_processed(txid, 5));

    let _result = validator.quick_validation_checks("deadbeef");
    if validator.is_recently_processed("deadbeef", 5) {
        let cache_result: Result<(), ValidationError> =
            Err(ValidationError::RecentlyProcessed("deadbeef".to_string()));
        assert!(matches!(cache_result, Err(ValidationError::RecentlyProcessed(_))));
    }
}

const GENESIS_TX: &str = "01000000010000000000000000000000000000000000000000000000000000000000000000ffffffff4d04ffff001d0104455468652054696d65732030332f4a616e2f32303039204368616e63656c6c6f72206f6e206272696e6b206f66207365636f6e64206261696c6f757420666f722062616e6b73ffffffff0100f2052a01000000434104678afdb0fe5548271967f1a67130b7105cd6a828e03909a67962e0ea1f61deb649f6bc3f4cef38c4f35504e51ec112de5c384df7ba0b8d578a4c702b6bf11d5fac00000000";
const GENESIS_TXID: &str = "4a5e1e4baab89f3a32518a88c31bc87f618f76673e2cc77ab2127b7afdeda33b";

fn refusing_reply(reason: Option<&str>) -> CoreReply {
    CoreReply {
        error: None,
        result: Some(vec![CoreResult {
            allowed: Some(false),
            reject_reason: reason.map(|r| r.to_string()),
        }]),
    }
}

#[test]
fn extract_txid_of_a_real_transaction() {
    let validator = TransactionValidator::new(ValidationConfig::default(), 18332);
    let txid = validator.extract_txid(GENESIS_TX).expect("a valid transaction");
    assert_eq!(txid, GENESIS_TXID);
    assert_ne!(txid, GENESIS_TX);
}

#[test]
fn extract_txid_accepts_upper_case_hex() {
    let validator = TransactionValidator::new(ValidationConfig::default(), 18332);
    let txid = validator.extract_txid(&GENESIS_TX.to_uppercase()).expect("a valid transaction");
    assert_eq!(txid, GENESIS_TXID);
}

#[test]
fn extract_txid_rejects_odd_length_and_non_hex() {
    let validator = TransactionValidator::new(ValidationConfig::default(), 18332);
    assert!(matches!(validator.extract_txid(""), Err(ValidationError::InvalidStructure)));
    assert!(matches!(validator.extract_txid("abc"), Err(ValidationError::InvalidHex)));
    assert!(matches!(validator.extract_txid("xyz123"), Err(ValidationError::InvalidHex)));
    assert!(matches!(validator.extract_txid("\u{e9}\u{e9}"), Err(ValidationError::InvalidHex)));
    let truncated = &GENESIS_TX[..GENESIS_TX.len() - 2];
    assert!(matches!(validator.extract_txid(truncated), Err(ValidationError::InvalidStructure)));
}

#[test]
fn precheck_size_boundaries() {
    let validator = TransactionValidator::new(ValidationConfig::default(), 18332);
    assert!(matches!(
        validator.quick_validation_checks(&"0".repeat(2 * 59)),
        Err(ValidationError::InvalidSize(59))
    ));
    assert!(validator.quick_validation_checks(&"0".repeat(2 * 60)).is_ok());
    assert!(validator.quick_validation_checks(&"0".repeat(2 * 400_000)).is_ok());
    assert!(matches!(
        validator.quick_validation_checks(&"0".repeat(2 * 400_001)),
        Err(ValidationError::InvalidSize(400_001))
    ));
}

#[test]
fn precheck_rejects_empty_odd_and_non_hex() {
    let validator = TransactionValidator::new(ValidationConfig::default(), 18332);
    assert!(matches!(
        validator.quick_validation_checks(""),
        Err(ValidationError::EmptyTransaction)
    ));
    assert!(matches!(
        validator.quick_validation_checks("abc"),
        Err(ValidationError::InvalidSize(1))
    ));
    assert!(matches!(
        validator.quick_validation_checks("xyz0123456789"),
        Err(ValidationError::InvalidHex)
    ));
    assert!(matches!(
        validator.quick_validation_checks(&"\u{e9}".repeat(120)),
        Err(ValidationError::InvalidHex)
    ));
    assert!(matches!(
        validator.quick_validation_checks(&format!("{}g", "a".repeat(119))),
        Err(ValidationError::InvalidHex)
    ));
}

#[test]
fn precheck_counts_an_odd_digit_down() {
    let validator = TransactionValidator::new(ValidationConfig::default(), 18332);
    assert!(matches!(
        validator.quick_validation_checks(&"a".repeat(119)),
        Err(ValidationError::InvalidSize(59))
    ));
    assert!(validator.quick_validation_checks(&"a".repeat(121)).is_ok());
}

#[test]
fn validate_twice_within_ttl_is_recently_processed() {
    let mut config = ValidationConfig::default();
    config.cache_ttl_seconds = 1;
    let mut validator = TransactionValidator::new(config, 18332);

    assert!(validator.validate(GENESIS_TX, 10_000, &accepting_reply()).is_ok());
    match validator.validate(GENESIS_TX, 10_999, &accepting_reply()) {
        Err(ValidationError::RecentlyProcessed(txid)) => assert_eq!(txid, GENESIS_TXID),
        other => panic!("expected RecentlyProcessed, got {:?}", other),
    }
    assert!(validator.validate(GENESIS_TX, 12_000, &accepting_reply()).is_ok());
}

#[test]
fn ttl_ends_exactly_at_its_last_millisecond() {
    let mut config = ValidationConfig::default();
    config.cache_ttl_seconds = 2;
    let mut validator = TransactionValidator::new(config, 18332);
    validator.cache_transaction("t", 500);
    assert!(validator.is_recently_processed("t", 500));
    assert!(validator.is_recently_processed("t", 2_499));
    assert!(!validator.is_recently_processed("t", 2_500));
    assert!(validator.is_recently_processed("t", 100));
    assert!(!validator.is_recently_processed("u", 500));
}

#[test]
fn zero_ttl_never_counts_as_recent() {
    let mut config = ValidationConfig::default();
    config.cache_ttl_seconds = 0;
    let mut validator = TransactionValidator::new(config, 18332);
    validator.cache_transaction("t", 500);
    assert!(!validator.is_recently_processed("t", 500));
}

#[test]
fn node_is_asked_once_per_ttl_window() {
    let mut validator = TransactionValidator::new(ValidationConfig::default(), 18332);
    match validator.validate_locally(GENESIS_TX, 0) {
        Ok(Some(txid)) => assert_eq!(txid, GENESIS_TXID),
        other => panic!("expected a request for the node, got {:?}", other),
    }
    assert!(validator.validate(GENESIS_TX, 0, &accepting_reply()).is_ok());
    assert!(matches!(
        validator.validate_locally(GENESIS_TX, 599_999),
        Err(ValidationError::RecentlyProcessed(_))
    ));
    assert!(matches!(
        validator.validate_locally(&GENESIS_TX.to_uppercase(), 599_999),
        Err(ValidationError::RecentlyProcessed(_))
    ));
    assert!(matches!(validator.validate_locally(GENESIS_TX, 600_000), Ok(Some(_))));
}

#[test]
fn validate_locally_when_disabled_asks_nothing() {
    let mut config = ValidationConfig::default();
    config.enable_validation = false;
    let validator = TransactionValidator::new(config, 18332);
    assert!(matches!(validator.validate_locally("not hex at all", 0), Ok(None)));
}

#[test]
fn refused_transaction_is_not_cached() {
    let mut validator = TransactionValidator::new(ValidationConfig::default(), 18332);
    match validator.validate(GENESIS_TX, 0, &refusing_reply(Some("missing-inputs"))) {
        Err(ValidationError::BitcoinCoreRejection(reason)) => assert_eq!(reason, "missing-inputs"),
        other => panic!("expected a rejection, got {:?}", other),
    }
    assert!(!validator.is_recently_processed(GENESIS_TXID, 0));
    assert!(validator.validate(GENESIS_TX, 1, &accepting_reply()).is_ok());
    assert!(validator.is_recently_processed(GENESIS_TXID, 1));
}

#[test]
fn precheck_runs_after_the_cache_gate_and_can_be_skipped() {
    let small = format!(
        "0100000001{}ffffffff00ffffffff0000000000",
        "00".repeat(32)
    );
    assert_eq!(small.len(), 2 * 51);
    let validator = TransactionValidator::new(ValidationConfig::default(), 18332);
    let txid = validator.extract_txid(&small).expect("a transaction of 51 bytes");
    assert_eq!(txid.len(), 64);

    let mut validator = TransactionValidator::new(ValidationConfig::default(), 18332);
    assert!(matches!(
        validator.validate(&small, 0, &accepting_reply()),
        Err(ValidationError::InvalidSize(51))
    ));
    assert!(!validator.is_recently_processed(&txid, 0));
    validator.cache_transaction(&txid, 0);
    assert!(matches!(
        validator.validate(&small, 0, &accepting_reply()),
        Err(ValidationError::RecentlyProcessed(_))
    ));

    let mut config = ValidationConfig::default();
    config.enable_precheck = false;
    let mut lenient = TransactionValidator::new(config, 18332);
    assert!(lenient.validate(&small, 0, &accepting_reply()).is_ok());
    assert!(lenient.is_recently_processed(&txid, 0));
}

#[test]
fn core_reply_readings() {
    let verdict = TransactionValidator::validate_with_bitcoin_core(&accepting_reply());
    assert!(verdict.is_ok());

    let with_error = CoreReply { error: Some("{\"code\":-22}".to_string()), result: None };
    match TransactionValidator::validate_with_bitcoin_core(&with_error) {
        Err(ValidationError::BitcoinCoreRejection(reason)) => {
            assert_eq!(reason, "RPC error: {\"code\":-22}")
        }
        other => panic!("unexpected {:?}", other),
    }

    let error_wins = CoreReply {
        error: Some("null-ish".to_string()),
        result: Some(vec![CoreResult { allowed: Some(true), reject_reason: None }]),
    };
    assert!(TransactionValidator::validate_with_bitcoin_core(&error_wins).is_err());

    let no_array = CoreReply { error: None, result: None };
    match TransactionValidator::validate_with_bitcoin_core(&no_array) {
        Err(ValidationError::BitcoinCoreRejection(reason)) => {
            assert_eq!(reason, "Invalid response format")
        }
        other => panic!("unexpected {:?}", other),
    }

    let empty = CoreReply { error: None, result: Some(vec![]) };
    match TransactionValidator::validate_with_bitcoin_core(&empty) {
        Err(ValidationError::BitcoinCoreRejection(reason)) => assert_eq!(reason, "Empty response"),
        other => panic!("unexpected {:?}", other),
    }

    match TransactionValidator::validate_with_bitcoin_core(&refusing_reply(None)) {
        Err(ValidationError::BitcoinCoreRejection(reason)) => assert_eq!(reason, "unknown reason"),
        other => panic!("unexpected {:?}", other),
    }

    let undecided = CoreReply {
        error: None,
        result: Some(vec![CoreResult { allowed: None, reject_reason: Some("odd".to_string()) }]),
    };
    match TransactionValidator::validate_with_bitcoin_core(&undecided) {
        Err(ValidationError::BitcoinCoreRejection(reason)) => assert_eq!(reason, "odd"),
        other => panic!("unexpected {:?}", other),
    }

    let first_decides = CoreReply {
        error: None,
        result: Some(vec![
            CoreResult { allowed: Some(false), reject_reason: Some("first".to_string()) },
            CoreResult { allowed: Some(true), reject_reason: None },
        ]),
    };
    match TransactionValidator::validate_with_bitcoin_core(&first_decides) {
        Err(ValidationError::BitcoinCoreRejection(reason)) => assert_eq!(reason, "first"),
        other => panic!("unexpected {:?}", other),
    }
}

#[test]
fn error_messages_are_exact() {
    assert_eq!(ValidationError::EmptyTransaction.message(), "Empty transaction");
    assert_eq!(ValidationError::InvalidHex.message(), "Invalid hex format");
    assert_eq!(
        ValidationError::InvalidSize(100).message(),
        "Invalid transaction size: 100 bytes"
    );
    assert_eq!(ValidationError::InvalidSize(0).message(), "Invalid transaction size: 0 bytes");
    assert_eq!(ValidationError::InvalidStructure.message(), "Invalid transaction structure");
    assert_eq!(
        ValidationError::RecentlyProcessed("test_txid".to_string()).message(),
        "Transaction test_txid recently processed (cached)"
    );
    assert_eq!(
        ValidationError::BitcoinCoreRejection("test reason".to_string()).message(),
        "Bitcoin Core rejection: test reason"
    );
    assert_eq!(ValidationError::RpcError("timed out".to_string()).message(), "RPC error: timed out");
    assert_eq!(
        ValidationError::JsonError("eof".to_string()).message(),
        "JSON parsing error: eof"
    );
}

#[test]
fn validator_address_and_configuration() {
    let validator = TransactionValidator::new(ValidationConfig::default(), 18332);
    assert_eq!(validator.bitcoin_rpc_url(), "http://127.0.0.1:18332");
    assert_eq!(validator.configuration().cache_size, 1000);
    let low = TransactionValidator::new(ValidationConfig::default(), 0);
    assert_eq!(low.bitcoin_rpc_url(), "http://127.0.0.1:0");
    let high = TransactionValidator::new(ValidationConfig::default(), 65535);
    assert_eq!(high.bitcoin_rpc_url(), "http://127.0.0.1:65535");
}

#[test]
fn cache_drops_the_least_recently_stored() {
    let mut config = ValidationConfig::default();
    config.cache_size = 2;
    let mut validator = TransactionValidator::new(config, 18332);
    validator.cache_transaction("a", 1);
    validator.cache_transaction("b", 2);
    validator.cache_transaction("c", 3);
    assert!(!validator.is_recently_processed("a", 3));
    assert!(validator.is_recently_processed("b", 3));
    assert!(validator.is_recently_processed("c", 3));
}

#[test]
fn storing_again_refreshes_an_entry_and_looking_does_not() {
    let mut config = ValidationConfig::default();
    config.cache_size = 2;
    let mut validator = TransactionValidator::new(config.clone(), 18332);
    validator.cache_transaction("a", 1);
    validator.cache_transaction("b", 2);
    validator.cache_transaction("a", 3);
    validator.cache_transaction("c", 4);
    assert!(validator.is_recently_processed("a", 4));
    assert!(!validator.is_recently_processed("b", 4));
    assert!(validator.is_recently_processed("c", 4));

    let mut other = TransactionValidator::new(config, 18332);
    other.cache_transaction("a", 1);
    other.cache_transaction("b", 2);
    assert!(other.is_recently_processed("a", 2));
    other.cache_transaction("c", 3);
    assert!(!other.is_recently_processed("a", 3));
    assert!(other.is_recently_processed("b", 3));
}

#[test]
fn storing_again_replaces_the_time() {
    let mut config = ValidationConfig::default();
    config.cache_ttl_seconds = 1;
    let mut validator = TransactionValidator::new(config, 18332);
    validator.cache_transaction("a", 0);
    assert!(!validator.is_recently_processed("a", 1_500));
    validator.cache_transaction("a", 1_000);
    assert!(validator.is_recently_processed("a", 1_500));
}

#[test]
fn zero_cache_size_falls_back_to_a_thousand() {
    let mut config = ValidationConfig::default();
    config.cache_size = 0;
    let mut validator = TransactionValidator::new(config, 18332);
    for i in 0..1001u64 {
        validator.cache_transaction(&format!("tx{}", i), i);
    }
    assert!(!validator.is_recently_processed("tx0", 1001));
    assert!(validator.is_recently_processed("tx1", 1001));
    assert!(validator.is_recently_processed("tx1000", 1001));
}

#[test]
fn other_validations_do_not_end_the_window() {
    let mut config = ValidationConfig::default();
    config.cache_size = 3;
    let mut validator = TransactionValidator::new(config, 18332);
    assert!(validator.validate(GENESIS_TX, 0, &accepting_reply()).is_ok());
    validator.cache_transaction("other1", 1);
    validator.cache_transaction("other2", 2);
    assert!(matches!(
        validator.validate(GENESIS_TX, 3, &accepting_reply()),
        Err(ValidationError::RecentlyProcessed(_))
    ));
    validator.cache_transaction("other3", 4);
    assert!(validator.validate(GENESIS_TX, 5, &accepting_reply()).is_ok());
}
