use feishu_mcp::auth::token_store::{TokenStore, TokenStoreError, NONCE_SIZE};

fn store(key: [u8; 32]) -> TokenStore {
    TokenStore::new("/tmp/tokens.db".to_string(), &key)
}

#[test]
fn sealed_token_reads_back() {
    let s = store([7u8; 32]);
    let record = s.seal_token("my-app", "super-secret-token").unwrap();
    assert_eq!(record.len(), NONCE_SIZE + "super-secret-token".len() + 16);
    assert_eq!(s.seal_token("my-app", "令牌").unwrap().len(), 12 + 6 + 16);
    let loaded = s.open_record("my-app", &record, 9_999_999_999, 1_700_000_000).unwrap();
    assert_eq!(loaded, Some(("super-secret-token".to_string(), 9_999_999_999)));
}

#[test]
fn record_is_not_the_plain_token() {
    let s = store([1u8; 32]);
    let nonce = [3u8; 12];
    let record = s.seal_token_with_nonce("app", "token-text", &nonce).unwrap();
    assert_eq!(&record[..12], &nonce);
    assert_ne!(&record[12..22], b"token-text");
    // the same nonce gives the same record
    assert_eq!(record, s.seal_token_with_nonce("app", "token-text", &nonce).unwrap());
}

#[test]
fn random_nonces_differ() {
    let s = store([2u8; 32]);
    let a = s.seal_token("app", "t").unwrap();
    let b = s.seal_token("app", "t").unwrap();
    assert_ne!(a[..12], b[..12]);
}

#[test]
fn expired_token_is_not_returned() {
    let s = store([7u8; 32]);
    let record = s.seal_token("my-app", "tok").unwrap();
    assert_eq!(s.open_record("my-app", &record, 100, 100).unwrap(), None);
    assert_eq!(s.open_record("my-app", &record, 100, 101).unwrap(), None);
    assert_eq!(s.token_from_row("my-app", Some((record, 100)), 200).unwrap(), None);
}

#[test]
fn missing_row_is_none() {
    let s = store([7u8; 32]);
    assert_eq!(s.token_from_row("unknown", None, 0).unwrap(), None);
    assert_eq!(s.load_from_row("unknown", None).unwrap(), None);
}

#[test]
fn short_record_is_an_error() {
    let s = store([7u8; 32]);
    let err = s.open_record("my-app", &[1, 2, 3], 9_999_999_999, 0).unwrap_err();
    assert!(matches!(err, TokenStoreError::TooShort));
    assert_eq!(err.to_string(), "Invalid stored token: too short");
}

#[test]
fn wrong_key_or_app_fails_to_decrypt() {
    let s = store([7u8; 32]);
    let record = s.seal_token("my-app", "tok").unwrap();
    let other = store([8u8; 32]);
    assert!(matches!(
        other.open_record("my-app", &record, 9_999_999_999, 0),
        Err(TokenStoreError::DecryptionFailed(_))
    ));
    assert!(matches!(
        s.open_record("other-app", &record, 9_999_999_999, 0),
        Err(TokenStoreError::DecryptionFailed(_))
    ));
    assert_eq!(
        TokenStoreError::DecryptionFailed("Error".to_string()).to_string(),
        "Decryption failed: Error"
    );
}

#[test]
fn overwrite_reads_latest_record() {
    let s = store([9u8; 32]);
    let _old = s.seal_token("my-app", "old").unwrap();
    let new = s.seal_token("my-app", "new").unwrap();
    let (token, _) = s.load_from_row("my-app", Some((new, 9_999_999_999))).unwrap().unwrap();
    assert_eq!(token, "new");
}

#[test]
fn store_keeps_its_path() {
    assert_eq!(store([0u8; 32]).db_path(), "/tmp/tokens.db");
}
