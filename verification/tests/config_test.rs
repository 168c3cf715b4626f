use feishu_mcp::config::{
    default_base_url, default_host, default_log_level, default_max_requests_per_minute, default_port,
    default_redact_tokens, encryption_key, encryption_key_from, server_dir, token_db_path, token_db_path_in, Config, KeyError,
};

#[test]
fn test_config_path() {
    let path = Config::config_path();
    assert!(path.ends_with(".feishu-mcp/config.yaml"));
}

#[test]
fn test_default_config() {
    let config = Config::default();
    assert_eq!(config.server.port, 3000);
    assert_eq!(config.rate_limit.max_requests_per_minute, 100);
    assert_eq!(config.logging.level, "info");
    assert!(config.logging.redact_tokens);
}

#[test]
fn test_default_base_url() {
    assert_eq!(default_base_url(), "https://open.feishu.cn/open-apis");
}

#[test]
fn defaults_each_setting() {
    assert_eq!(default_host(), "0.0.0.0");
    assert_eq!(default_port(), 3000);
    assert_eq!(default_max_requests_per_minute(), 100);
    assert_eq!(default_log_level(), "info");
    assert!(default_redact_tokens());
    let config = Config::default();
    assert_eq!(config.feishu.app_id, "");
    assert_eq!(config.feishu.app_secret, "");
    assert_eq!(config.feishu.base_url, "https://open.feishu.cn/open-apis");
    assert_eq!(config.server.host, "0.0.0.0");
}

#[test]
fn env_secret_overrides_file_secret() {
    let mut file = Config::default();
    file.feishu.app_id = "cli_a".to_string();
    file.feishu.app_secret = "from_file".to_string();
    let c = Config::resolve(Some(file.clone()), Some("from_env"));
    assert_eq!(c.feishu.app_secret, "from_env");
    assert_eq!(c.feishu.app_id, "cli_a");
    let c = Config::resolve(Some(file.clone()), Some(""));
    assert_eq!(c.feishu.app_secret, "from_file");
    let c = Config::resolve(Some(file), None);
    assert_eq!(c.feishu.app_secret, "from_file");
}

#[test]
fn missing_file_uses_defaults_with_env_secret() {
    let c = Config::resolve(None, Some("from_env"));
    assert_eq!(c.feishu.app_secret, "from_env");
    assert_eq!(c.feishu.app_id, "");
    assert_eq!(c.server.port, 3000);
    let c = Config::resolve(None, None);
    assert_eq!(c.feishu.app_secret, "");
    let c = Config::resolve(None, Some(""));
    assert_eq!(c.feishu.app_secret, "");
}

#[test]
fn config_path_joins_directories() {
    assert_eq!(Config::config_path_in(Some("/home/u")), "/home/u/.feishu-mcp/config.yaml");
    assert_eq!(Config::config_path_in(Some("/home/u/")), "/home/u/.feishu-mcp/config.yaml");
    assert_eq!(Config::config_path_in(None), "./.feishu-mcp/config.yaml");
    assert_eq!(token_db_path_in(Some("/home/u")), "/home/u/.feishu-mcp/tokens.db");
    assert!(token_db_path().ends_with(".feishu-mcp/tokens.db"));
    assert!(server_dir().ends_with("/.feishu-mcp"));
}

#[test]
fn encryption_key_from_environment() {
    let exact = "0123456789abcdef0123456789abcdef";
    let key = encryption_key_from(Some(exact), [7u8; 32]).unwrap();
    assert_eq!(&key[..], exact.as_bytes());
    let err = encryption_key_from(Some("short"), [7u8; 32]).unwrap_err();
    assert_eq!(err, KeyError::WrongLength);
    assert_eq!(err.to_string(), "FEISHU_ENCRYPTION_KEY must be exactly 32 bytes");
    let long = "0123456789abcdef0123456789abcdefXYZ";
    assert_eq!(encryption_key_from(Some(long), [7u8; 32]).unwrap_err(), KeyError::WrongLength);
    assert_eq!(encryption_key(Some(long)).unwrap_err(), KeyError::WrongLength);
    assert_eq!(&encryption_key(Some(exact)).unwrap()[..], exact.as_bytes());
}

#[test]
fn generated_encryption_key() {
    let key = encryption_key_from(None, [7u8; 32]).unwrap();
    assert_eq!(key, [7u8; 32]);
    let a = encryption_key(None).unwrap();
    let b = encryption_key(None).unwrap();
    assert_ne!(a, b);
    assert_ne!(&a[..], b"feishu-mcp-default-encryption-ke");
}
