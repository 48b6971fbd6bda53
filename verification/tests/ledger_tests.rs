use rigil_proxy::api_key::{ApiKeyError, ApiKeyStore};
use rigil_proxy::api_types::ApiKeyData;

const ADMIN: &str = "changeme";

#[test]
fn new_store_is_empty() {
    let store = ApiKeyStore::new();
    assert!(!store.validate_key("anything"));
    assert!(store.list_keys().is_empty());
    assert_eq!(store.get_usage("anything"), None);
}

#[test]
fn admin_key_is_fixed() {
    let store = ApiKeyStore::new();
    assert_eq!(ApiKeyStore::get_admin_key(), ADMIN);
    assert!(store.validate_admin_key(ADMIN));
    assert!(!store.validate_admin_key("wrong"));
    assert!(!store.validate_admin_key(""));
}

#[test]
fn add_key_then_validate() {
    let mut store = ApiKeyStore::new();
    assert!(store.add_key("k1".to_string()).is_ok());
    assert!(store.validate_key("k1"));
    assert!(!store.validate_key("k2"));
    assert_eq!(store.list_keys(), vec!["k1".to_string()]);
}

#[test]
fn duplicate_key_refused() {
    let mut store = ApiKeyStore::new();
    assert!(store.add_key("k1".to_string()).is_ok());
    let r = store.add_key("k1".to_string());
    assert!(matches!(r, Err(ApiKeyError::KeyAlreadyExists)));
    assert_eq!(store.list_keys().len(), 1);
}

#[test]
fn remove_key_requires_admin() {
    let mut store = ApiKeyStore::new();
    store.add_key("k1".to_string()).unwrap();
    let r = store.remove_key("wrong", "k1");
    assert!(matches!(r, Err(ApiKeyError::AdminRequired)));
    assert!(store.validate_key("k1"));
}

#[test]
fn remove_missing_key_not_found() {
    let mut store = ApiKeyStore::new();
    let r = store.remove_key(ADMIN, "ghost");
    assert!(matches!(r, Err(ApiKeyError::KeyNotFound)));
}

#[test]
fn remove_key_deletes_entry() {
    let mut store = ApiKeyStore::new();
    store.add_key("k1".to_string()).unwrap();
    store.add_key("k2".to_string()).unwrap();
    assert!(store.remove_key(ADMIN, "k1").is_ok());
    assert!(!store.validate_key("k1"));
    assert!(store.validate_key("k2"));
    assert_eq!(store.list_keys(), vec!["k2".to_string()]);
}

#[test]
fn add_usage_accumulates() {
    let mut store = ApiKeyStore::new();
    store.add_key("k1".to_string()).unwrap();
    assert!(store.add_usage("k1", 100, 40).is_ok());
    assert_eq!(store.get_usage("k1"), Some(100));
    assert!(store.add_usage("k1", 50, 10).is_ok());
    assert_eq!(store.get_usage("k1"), Some(150));
}

#[test]
fn add_usage_unknown_key() {
    let mut store = ApiKeyStore::new();
    let r = store.add_usage("ghost", 10, 5);
    assert!(matches!(r, Err(ApiKeyError::KeyNotFound)));
}

#[test]
fn add_usage_saturates() {
    let mut store = ApiKeyStore::new();
    store.add_key("k1".to_string()).unwrap();
    store.add_usage("k1", u64::MAX, 1).unwrap();
    store.add_usage("k1", u64::MAX, 1).unwrap();
    assert_eq!(store.get_usage("k1"), Some(u64::MAX));
}

#[test]
fn statistics_require_admin() {
    let store = ApiKeyStore::new();
    assert!(matches!(
        store.get_statistics("nope"),
        Err(ApiKeyError::AdminRequired)
    ));
}

#[test]
fn statistics_empty_store() {
    let store = ApiKeyStore::new();
    let stats = store.get_statistics(ADMIN).unwrap();
    assert_eq!(stats.as_tuple(), (0, 0, 0, 0, 0));
}

#[test]
fn statistics_totals_and_ratio() {
    let mut store = ApiKeyStore::new();
    store.add_key("k1".to_string()).unwrap();
    store.add_key("k2".to_string()).unwrap();
    store.add_usage("k1", 1000, 400).unwrap();
    store.add_usage("k2", 500, 350).unwrap();
    let stats = store.get_statistics(ADMIN).unwrap();
    // saved (1500 - 750) of 1500 bytes: 50 percent
    assert_eq!(stats.as_tuple(), (1500, 750, 2, 50, 2));
}

#[test]
fn statistics_ratio_zero_when_output_grew() {
    let mut store = ApiKeyStore::new();
    store.add_key("k1".to_string()).unwrap();
    store.add_usage("k1", 100, 300).unwrap();
    let stats = store.get_statistics(ADMIN).unwrap();
    assert_eq!(stats.compression_ratio, 0);
}

#[test]
fn list_keys_with_data_requires_admin() {
    let store = ApiKeyStore::new();
    assert!(matches!(
        store.list_keys_with_data("guess"),
        Err(ApiKeyError::AdminRequired)
    ));
}

#[test]
fn list_keys_with_data_returns_entries() {
    let mut store = ApiKeyStore::new();
    store.add_key("k1".to_string()).unwrap();
    store.add_usage("k1", 10, 5).unwrap();
    let data = store.list_keys_with_data(ADMIN).unwrap();
    assert_eq!(data.len(), 1);
    assert_eq!(data[0].key, "k1");
    assert_eq!(data[0].total_original_bytes, 10);
    assert_eq!(data[0].total_processed_bytes, 5);
    assert_eq!(data[0].compression_count, 1);
    assert!(data[0].last_used.is_some());
}

#[test]
fn from_entries_keeps_first_of_each_key() {
    let a = ApiKeyData::new("k1".to_string(), "2024-01-01T00:00:00+00:00".to_string());
    let mut b = ApiKeyData::new("k1".to_string(), "2024-02-02T00:00:00+00:00".to_string());
    b.add_usage(7, 3);
    let c = ApiKeyData::new("k2".to_string(), "2024-03-03T00:00:00+00:00".to_string());
    let store = ApiKeyStore::from_entries(vec![a, b, c]);
    assert_eq!(
        store.list_keys(),
        vec!["k1".to_string(), "k2".to_string()]
    );
    let data = store.list_keys_with_data(ADMIN).unwrap();
    assert_eq!(data[0].created_at, "2024-01-01T00:00:00+00:00");
    assert_eq!(data[0].total_original_bytes, 0);
}

#[test]
fn error_messages() {
    assert_eq!(
        ApiKeyError::AdminRequired.message(),
        "管理者権限が必要です"
    );
    assert_eq!(
        ApiKeyError::KeyNotFound.message(),
        "APIキーが見つかりません"
    );
    assert_eq!(
        ApiKeyError::KeyAlreadyExists.message(),
        "APIキーが既に存在します"
    );
    assert_eq!(
        ApiKeyError::FileError("disk full".to_string()).message(),
        "ファイルエラー: disk full"
    );
}
