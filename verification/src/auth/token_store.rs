//! Encryption of stored access tokens with AES-256-GCM.
//!
//! A token is kept as one record: a 12-byte random nonce followed by the
//! AES-256-GCM sealing of the token's UTF-8 bytes, with the application id
//! as associated data.  The database that holds the records lives outside
//! this crate; here are the sealing and the reading back of one record.

use aes_gcm::aead::{Aead, KeyInit, Payload};
use aes_gcm::{Aes256Gcm, Nonce};
use vstd::prelude::*;
use vstd::utf8::*;

use crate::clock::current_timestamp;

verus! {

broadcast use {vstd::utf8::encode_utf8_valid_utf8, vstd::utf8::encode_utf8_decode_utf8};

/// The length of the nonce that starts every record.
pub const NONCE_SIZE: usize = 12;

/// The longest plaintext, and the longest associated data, that AES-GCM
/// accepts (2^36 bytes).
pub open spec fn aes_gcm_max_len() -> nat {
    0x10_0000_0000
}

/// The AES-256-GCM sealing (ciphertext followed by the 16-byte tag) of
/// `plaintext` under `key` and `nonce`, authenticating `aad`.
pub uninterp spec fn aes256gcm_seal(key: Seq<u8>, nonce: Seq<u8>, aad: Seq<u8>, plaintext: Seq<u8>) -> Seq<u8>;

/// What AES-256-GCM decryption of `ciphertext` under `key`, `nonce` and
/// `aad` yields: the plaintext, or `None` when authentication fails.
pub uninterp spec fn aes256gcm_open(key: Seq<u8>, nonce: Seq<u8>, aad: Seq<u8>, ciphertext: Seq<u8>) -> Option<Seq<u8>>;

/// `Aes256Gcm::new` on `key`, then `Aead::encrypt` with a `Payload` of
/// `aad` and `plaintext`.  The `aes-gcm` source refuses only a plaintext
/// or associated data longer than 2^36 bytes, and appends a 16-byte tag to
/// a ciphertext as long as the plaintext.  The error carries the `Debug`
/// text of `aead::Error`.
#[verifier::external_body]
fn aes256gcm_encrypt(key: &[u8; 32], nonce: &[u8; 12], aad: &[u8], plaintext: &[u8]) -> (sealed: Result<Vec<u8>, String>)
    ensures
        sealed is Ok <==> (plaintext@.len() <= aes_gcm_max_len() && aad@.len() <= aes_gcm_max_len()),
        sealed matches Ok(c) ==> c@ == aes256gcm_seal(key@, nonce@, aad@, plaintext@),
        sealed matches Ok(c) ==> c@.len() == plaintext@.len() + 16,
{
    let cipher = Aes256Gcm::new(key.into());
    cipher.encrypt(Nonce::from_slice(nonce), Payload { aad, msg: plaintext }).map_err(|e| format!("{:?}", e))
}

/// `Aes256Gcm::new` on `key`, then `Aead::decrypt` with a `Payload` of
/// `aad` and `ciphertext`.  Decryption is determined by its inputs, and,
/// as for any AEAD, opening a sealing made with the same key, nonce and
/// associated data gives back the plaintext.  The error carries the `Debug`
/// text of `aead::Error`.
#[verifier::external_body]
fn aes256gcm_decrypt(key: &[u8; 32], nonce: &[u8], aad: &[u8], ciphertext: &[u8]) -> (opened: Result<Vec<u8>, String>)
    requires
        nonce@.len() == 12,
    ensures
        opened matches Ok(p) ==> aes256gcm_open(key@, nonce@, aad@, ciphertext@) == Some(p@),
        opened is Err ==> aes256gcm_open(key@, nonce@, aad@, ciphertext@) is None,
        opened is Err ==> forall|plain: Seq<u8>|
            ciphertext@ != #[trigger] aes256gcm_seal(key@, nonce@, aad@, plain) || plain.len() > aes_gcm_max_len()
                || aad@.len() > aes_gcm_max_len(),
        opened matches Ok(p) ==> forall|plain: Seq<u8>|
            ciphertext@ == #[trigger] aes256gcm_seal(key@, nonce@, aad@, plain) && plain.len() <= aes_gcm_max_len()
                && aad@.len() <= aes_gcm_max_len() ==> p@ == plain,
{
    let cipher = Aes256Gcm::new(key.into());
    cipher.decrypt(Nonce::from_slice(nonce), Payload { aad, msg: ciphertext }).map_err(|e| format!("{:?}", e))
}

/// `rand::random`: a nonce drawn from the thread-local generator.
#[verifier::external_body]
fn random_nonce() -> (nonce: [u8; 12]) {
    rand::random()
}

/// `String::from_utf8`: the text the bytes encode, when they are valid
/// UTF-8.  The error carries the `Debug` text of the `FromUtf8Error`.
#[verifier::external_body]
fn string_from_utf8(bytes: Vec<u8>) -> (text: Result<String, String>)
    ensures
        text is Ok <==> valid_utf8(bytes@),
        text matches Ok(t) ==> t@ == decode_utf8(bytes@),
{
    String::from_utf8(bytes).map_err(|e| format!("{:?}", e))
}

/// Why a token could not be sealed or read back.
#[derive(Debug, Clone)]
pub enum TokenStoreError {
    /// AES-GCM refused to seal the token.
    EncryptionFailed(String),
    /// The stored record is shorter than a nonce.
    TooShort,
    /// The record did not authenticate under this key and application id.
    DecryptionFailed(String),
    /// The decrypted token is not UTF-8.
    InvalidUtf8(String),
    /// The database failed.
    Database(String),
}

impl TokenStoreError {
    /// The error's message.
    pub open spec fn to_string_spec(&self) -> Seq<char> {
        match *self {
                TokenStoreError::EncryptionFailed(d) => "Encryption failed: "@ + d@,
                TokenStoreError::TooShort => "Invalid stored token: too short"@,
                TokenStoreError::DecryptionFailed(d) => "Decryption failed: "@ + d@,
                TokenStoreError::InvalidUtf8(d) => "Invalid UTF-8 in token: "@ + d@,
                TokenStoreError::Database(d) => d@,
            }
    }

    /// The error's message.
    pub fn to_string(&self) -> (s: String)
        ensures
            s@ == self.to_string_spec(),
    {
        match self {
            TokenStoreError::EncryptionFailed(d) => "Encryption failed: ".to_owned().concat(d.as_str()),
            TokenStoreError::TooShort => "Invalid stored token: too short".to_owned(),
            TokenStoreError::DecryptionFailed(d) => "Decryption failed: ".to_owned().concat(d.as_str()),
            TokenStoreError::InvalidUtf8(d) => "Invalid UTF-8 in token: ".to_owned().concat(d.as_str()),
            TokenStoreError::Database(d) => d.clone(),
        }
    }
}

/// The record that seals `token` for `app_id` under `key` with `nonce`.
pub open spec fn sealed_record(key: Seq<u8>, nonce: Seq<u8>, app_id: Seq<char>, token: Seq<char>) -> Seq<u8> {
    nonce + aes256gcm_seal(key, nonce, encode_utf8(app_id), encode_utf8(token))
}

/// How a record stored with expiry `expires_at` reads back at `now`: an
/// expired token is `None`; a record shorter than a nonce is `TooShort`;
/// otherwise the record is a nonce followed by a sealing, and what opening
/// the sealing yields decides: a failed authentication is
/// `DecryptionFailed`, a plaintext that is not UTF-8 is `InvalidUtf8`, and
/// any other plaintext is the token, with the expiry.
pub open spec fn opened_as(
    key: Seq<u8>,
    app_id: Seq<char>,
    stored: Seq<u8>,
    expires_at: i64,
    now: u64,
    result: Result<Option<(String, u64)>, TokenStoreError>,
) -> bool {
    if (expires_at as u64) <= now {
        result matches Ok(None)
    } else if stored.len() < NONCE_SIZE {
        result matches Err(TokenStoreError::TooShort)
    } else {
        match aes256gcm_open(
            key,
            stored.subrange(0, NONCE_SIZE as int),
            encode_utf8(app_id),
            stored.subrange(NONCE_SIZE as int, stored.len() as int),
        ) {
            None => result is Err && result->Err_0 is DecryptionFailed,
            Some(p) => if valid_utf8(p) {
                result matches Ok(Some((t, e))) && t@ == decode_utf8(p) && e == expires_at as u64
            } else {
                result is Err && result->Err_0 is InvalidUtf8
            },
        }
    }
}

/// Whether AES-GCM accepts a token and an application id of these lengths.
pub open spec fn sealable(app_id: Seq<char>, token: Seq<char>) -> bool {
    encode_utf8(token).len() <= aes_gcm_max_len() && encode_utf8(app_id).len() <= aes_gcm_max_len()
}

/// The token store's key and the place of its database.
pub struct TokenStore {
    db_path: String,
    key: [u8; 32],
}

impl TokenStore {
    /// The encryption key, by value.
    pub closed spec fn key(&self) -> Seq<u8> {
        self.key@
    }

    pub closed spec fn path(&self) -> Seq<char> {
        self.db_path@
    }

    /// A store for the database at `db_path`, encrypting with
    /// `encryption_key`.
    pub fn new(db_path: String, encryption_key: &[u8; 32]) -> (store: TokenStore)
        ensures
            store.key() == encryption_key@,
            store.path() == db_path@,
    {
        TokenStore { db_path, key: *encryption_key }
    }

    /// Where the database lives.
    pub fn db_path(&self) -> (p: &str)
        ensures
            p@ == self.path(),
    {
        self.db_path.as_str()
    }

    /// Seals `token` for `app_id` with the given nonce.
    pub fn seal_token_with_nonce(&self, app_id: &str, token: &str, nonce: &[u8; 12]) -> (record: Result<Vec<u8>, TokenStoreError>)
        ensures
            record is Ok <==> sealable(app_id@, token@),
            record matches Ok(r) ==> r@ == sealed_record(self.key(), nonce@, app_id@, token@),
            record matches Ok(r) ==> r@.len() == NONCE_SIZE + encode_utf8(token@).len() + 16,
            record matches Err(e) ==> e is EncryptionFailed,
    {
        let aad = app_id.as_bytes();
        let msg = token.as_bytes();
        match aes256gcm_encrypt(&self.key, nonce, aad, msg) {
            Ok(ciphertext) => {
                let mut record: Vec<u8> = Vec::with_capacity(NONCE_SIZE);
                let mut i: usize = 0;
                while i < NONCE_SIZE
                    invariant
                        i <= NONCE_SIZE,
                        record@ =~= nonce@.subrange(0, i as int),
                    decreases NONCE_SIZE - i,
                {
                    record.push(nonce[i]);
                    i = i + 1;
                }
                let mut j: usize = 0;
                while j < ciphertext.len()
                    invariant
                        j <= ciphertext@.len(),
                        record@ =~= nonce@ + ciphertext@.subrange(0, j as int),
                    decreases ciphertext@.len() - j,
                {
                    record.push(ciphertext[j]);
                    j = j + 1;
                }
                assert(ciphertext@.subrange(0, ciphertext@.len() as int) =~= ciphertext@);
                Ok(record)
            },
            Err(d) => Err(TokenStoreError::EncryptionFailed(d)),
        }
    }

    /// Seals `token` for `app_id` under a fresh random nonce.
    pub fn seal_token(&self, app_id: &str, token: &str) -> (record: Result<Vec<u8>, TokenStoreError>)
        ensures
            record is Ok <==> sealable(app_id@, token@),
            record matches Ok(r) ==> exists|nonce: Seq<u8>|
                nonce.len() == NONCE_SIZE && r@ == #[trigger] sealed_record(self.key(), nonce, app_id@, token@),
            record matches Ok(r) ==> r@.len() == NONCE_SIZE + encode_utf8(token@).len() + 16,
            record matches Err(e) ==> e is EncryptionFailed,
    {
        let nonce = random_nonce();
        self.seal_token_with_nonce(app_id, token, &nonce)
    }

    /// Reads back the record of `app_id` that the database holds with the
    /// expiry `expires_at`, at instant `now`: `None` when the token has
    /// expired, the token and its expiry otherwise.  A record that is not a
    /// sealing made by `seal_token` for this key and `app_id` is an error.
    pub fn open_record(&self, app_id: &str, stored: &[u8], expires_at: i64, now: u64) -> (result: Result<Option<(String, u64)>, TokenStoreError>)
        ensures
            opened_as(self.key(), app_id@, stored@, expires_at, now, result),
            forall|nonce: Seq<u8>, token: Seq<char>|
                #![trigger sealed_record(self.key(), nonce, app_id@, token)]
                stored@ == sealed_record(self.key(), nonce, app_id@, token) && nonce.len() == NONCE_SIZE
                    && sealable(app_id@, token) && (expires_at as u64) > now ==> (result matches Ok(
                    Some((t, e)),
                ) && t@ == token && e == expires_at as u64),
    {
        let expires: u64 = expires_at as u64;
        if expires <= now {
            return Ok(None);
        }
        if stored.len() < NONCE_SIZE {
            return Err(TokenStoreError::TooShort);
        }
        let (nonce, ciphertext) = stored.split_at(NONCE_SIZE);
        let aad = app_id.as_bytes();
        proof {
            assert forall|n: Seq<u8>, token: Seq<char>|
                #![trigger sealed_record(self.key(), n, app_id@, token)]
                stored@ == sealed_record(self.key(), n, app_id@, token) && n.len() == NONCE_SIZE implies n
                == nonce@ && ciphertext@ == aes256gcm_seal(self.key(), n, encode_utf8(app_id@), encode_utf8(token)) by {
                assert(nonce@ =~= stored@.subrange(0, NONCE_SIZE as int));
                assert(n =~= stored@.subrange(0, NONCE_SIZE as int));
                assert(ciphertext@ =~= stored@.subrange(NONCE_SIZE as int, stored@.len() as int));
            }
        }
        match aes256gcm_decrypt(&self.key, nonce, aad, ciphertext) {
            Err(d) => Err(TokenStoreError::DecryptionFailed(d)),
            Ok(plain) => {
                let ghost p = plain@;
                match string_from_utf8(plain) {
                    Ok(token) => Ok(Some((token, expires))),
                    Err(d) => Err(TokenStoreError::InvalidUtf8(d)),
                }
            },
        }
    }

    /// Reads back the row that the database returned for `app_id` (`None`
    /// when it has no row), at the current time by the system clock.
    pub fn load_from_row(&self, app_id: &str, row: Option<(Vec<u8>, i64)>) -> (result: Result<Option<(String, u64)>, TokenStoreError>)
        ensures
            row is None ==> result matches Ok(None),
            exists|now: u64| self.row_read_at(app_id@, row, now, result),
    {
        let now = current_timestamp();
        let result = self.token_from_row(app_id, row, now);
        assert(self.row_read_at(app_id@, row, now, result));
        result
    }

    /// What `token_from_row` promises of a row read at `now`.
    pub open spec fn row_read_at(
        &self,
        app_id: Seq<char>,
        row: Option<(Vec<u8>, i64)>,
        now: u64,
        result: Result<Option<(String, u64)>, TokenStoreError>,
    ) -> bool {
        match row {
            None => result matches Ok(None),
            Some((stored, expires_at)) => {
                &&& opened_as(self.key(), app_id, stored@, expires_at, now, result)
                &&& forall|nonce: Seq<u8>, token: Seq<char>|
                    #![trigger sealed_record(self.key(), nonce, app_id, token)]
                    stored@ == sealed_record(self.key(), nonce, app_id, token) && nonce.len() == NONCE_SIZE
                        && sealable(app_id, token) && (expires_at as u64) > now ==> (result matches Ok(
                        Some((t, e)),
                    ) && t@ == token && e == expires_at as u64)
            },
        }
    }

    /// Reads back the row that the database returned for `app_id` (`None`
    /// when it has no row), at instant `now`.
    pub fn token_from_row(&self, app_id: &str, row: Option<(Vec<u8>, i64)>, now: u64) -> (result: Result<Option<(String, u64)>, TokenStoreError>)
        ensures
            self.row_read_at(app_id@, row, now, result),
    {
        match row {
            None => Ok(None),
            Some((stored, expires_at)) => self.open_record(app_id, stored.as_slice(), expires_at, now),
        }
    }
}

/// A stored row whose expiry is at or before the instant it is read at
/// reads as no token, whatever it holds.
pub proof fn lemma_expired_row_reads_as_none(
    store: TokenStore,
    app_id: Seq<char>,
    stored: Vec<u8>,
    expires_at: i64,
    now: u64,
    result: Result<Option<(String, u64)>, TokenStoreError>,
)
    requires
        store.row_read_at(app_id, Some((stored, expires_at)), now, result),
        (expires_at as u64) <= now,
    ensures
        result == Ok::<Option<(String, u64)>, TokenStoreError>(None),
{
}

/// A row that holds a sealing of `token` for `app_id` under the store's key,
/// read before its expiry, reads back as that token with that expiry.
pub proof fn lemma_live_row_reads_back(
    store: TokenStore,
    app_id: Seq<char>,
    token: Seq<char>,
    nonce: Seq<u8>,
    stored: Vec<u8>,
    expires_at: i64,
    now: u64,
    result: Result<Option<(String, u64)>, TokenStoreError>,
)
    requires
        store.row_read_at(app_id, Some((stored, expires_at)), now, result),
        stored@ == sealed_record(store.key(), nonce, app_id, token),
        nonce.len() == NONCE_SIZE,
        sealable(app_id, token),
        now < (expires_at as u64),
    ensures
        result matches Ok(Some((t, e))) && t@ == token && e == expires_at as u64,
{
}

} // verus!
