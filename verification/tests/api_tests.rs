use rusty_ai::api::ApiConfig;
use rusty_ai::core_config::{CoreConfig, StorageConfig};
use rusty_ai::db::{DatabaseSizeInfo, DatabaseUtils};
use rusty_ai::rate_limit::RateLimiter;
use rusty_ai::voice::{AudioConfig, SttConfig, SttProvider, WhisperConfig};

#[test]
fn test_api_config_default() {
    let config = ApiConfig::default();
    assert_eq!(config.host, "0.0.0.0");
    assert_eq!(config.port, 8080);
    assert!(config.enable_websockets);
}

#[test]
fn test_rate_limiter() {
    let mut limiter = RateLimiter::new(3, 60_000);

    // The first 3 requests are allowed.
    assert!(limiter.check_rate_limit("test_client", 0));
    assert!(limiter.check_rate_limit("test_client", 1));
    assert!(limiter.check_rate_limit("test_client", 2));

    // The 4th request inside the window is blocked.
    assert!(!limiter.check_rate_limit("test_client", 3));

    // A different client is allowed.
    assert!(limiter.check_rate_limit("other_client", 3));
}

#[test]
fn test_rate_limiter_cleanup() {
    let mut limiter = RateLimiter::new(3, 100);

    assert!(limiter.check_rate_limit("test_client", 0));
    assert!(limiter.check_rate_limit("test_client", 10));

    // After the window has passed, new requests are allowed again.
    assert!(limiter.check_rate_limit("test_client", 150));
    assert!(limiter.check_rate_limit("test_client", 151));
    assert!(limiter.check_rate_limit("test_client", 152));
}

#[test]
fn test_rate_limiter_cleanup_drops_idle_clients() {
    let mut limiter = RateLimiter::new(3, 100);
    assert!(limiter.check_rate_limit("one", 0));
    assert!(limiter.check_rate_limit("two", 90));
    limiter.cleanup_old_entries(150);
    assert_eq!(limiter.requests.len(), 1);
    assert_eq!(limiter.requests[0].0, "two");
}

#[test]
fn test_database_utils() {
    let id = DatabaseUtils::generate_id();
    assert!(!id.is_empty());

    let mut object = serde_json::Map::new();
    object.insert(
        "test".to_string(),
        serde_json::Value::String("value".to_string()),
    );
    let json_value = serde_json::Value::Object(object);
    let json_string = DatabaseUtils::stringify_json(&json_value).unwrap();
    let parsed_value = DatabaseUtils::parse_json(&json_string).unwrap();
    assert_eq!(json_value, parsed_value);

    let pattern = DatabaseUtils::escape_like_pattern("test%_string");
    assert_eq!(pattern, "test\\%\\_string");

    let fts_query =
        DatabaseUtils::build_fts_query(&["hello".to_string(), "world".to_string()]);
    assert_eq!(fts_query, "\"hello\" AND \"world\"");
}

#[test]
fn test_fts_query_edges() {
    assert_eq!(DatabaseUtils::build_fts_query(&[]), "*");
    assert_eq!(
        DatabaseUtils::build_fts_query(&["say \"hi\"".to_string()]),
        "\"say \"\"hi\"\"\""
    );
}

#[test]
fn test_size_info_used_space() {
    let info = DatabaseSizeInfo {
        total_size_bytes: 1000,
        free_space_bytes: 250,
    };
    assert_eq!(info.used_space_bytes(), 750);
    let odd = DatabaseSizeInfo {
        total_size_bytes: 10,
        free_space_bytes: 50,
    };
    assert_eq!(odd.used_space_bytes(), 0);
}

#[test]
fn test_core_config_default() {
    let config = CoreConfig::default();
    assert_eq!(config.plugin_directory, "./plugins");
    assert_eq!(config.max_concurrent_tasks, 10);
    assert_eq!(config.storage_config.max_connections, 10);
}

#[test]
fn test_storage_config_default() {
    let config = StorageConfig::default();
    assert!(config.enable_wal_mode);
    assert_eq!(config.connection_timeout_secs, 30);
}

#[test]
fn test_voice_config_defaults() {
    let stt = SttConfig::default();
    assert!(matches!(stt.provider, SttProvider::Whisper));
    assert_eq!(stt.timeout_seconds, 30);
    assert_eq!(stt.language, Some("en".to_string()));

    let whisper = WhisperConfig::default();
    assert_eq!(whisper.model, "whisper-1");
    assert!(whisper.api_key.is_none());

    let audio = AudioConfig::default();
    assert_eq!(audio.sample_rate, 16000);
    assert_eq!(audio.channels, 1);
}
