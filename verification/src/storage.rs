//! The credential store: saved connection profiles and the encryption of
//! their passwords with AES-256-GCM.
//!
//! A stored password is `base64(nonce ‖ ciphertext-with-tag)`. Values saved
//! by an earlier scheme, plain base64 of the password, are still read.

use vstd::prelude::*;
use vstd::slice::slice_subrange;
use aes_gcm::aead::{Aead, KeyInit};
use rand::RngCore;
use crate::encoding::{
    base64_decode, base64_decoding, base64_encode, base64_encoding, base64_length,
};
use crate::postgresql::uuid_text;
use crate::text::{lossy_text, utf8_lossy};

verus! {

/// Bytes of an encryption key: 256 bits.
pub const KEY_LENGTH: usize = 32;

/// Bytes of a nonce: 96 bits.
pub const NONCE_LENGTH: usize = 12;

/// Bytes of the authentication tag that ends every ciphertext.
pub const TAG_LENGTH: usize = 16;

/// Most bytes that AES-GCM encrypts under one nonce.
pub const MAX_PLAINTEXT_LENGTH: u64 = 0x10_0000_0000;

/// Permission bits of the key file: owner may read and write, nobody else.
pub const KEY_FILE_MODE: u32 = 0o600;

/// Creates the table of profiles where it does not exist yet.
pub const CREATE_TABLE_SQL: &'static str =
    "CREATE TABLE IF NOT EXISTS connections (id TEXT PRIMARY KEY, name TEXT NOT NULL, db_type TEXT NOT NULL, host TEXT NOT NULL, port INTEGER NOT NULL, username TEXT NOT NULL, password_encrypted TEXT NOT NULL, database TEXT NOT NULL, ssl_mode TEXT NOT NULL DEFAULT 'preferred', created_at DATETIME DEFAULT CURRENT_TIMESTAMP)";

/// Gives an older table the column it lacks. On a current table the
/// statement fails, which is expected and ignored.
pub const ADD_SSL_MODE_SQL: &'static str =
    "ALTER TABLE connections ADD COLUMN ssl_mode TEXT NOT NULL DEFAULT 'preferred'";

/// Saves a profile, replacing the one of the same id.
pub const SAVE_SQL: &'static str =
    "INSERT OR REPLACE INTO connections (id, name, db_type, host, port, username, password_encrypted, database, ssl_mode) VALUES (?, ?, ?, ?, ?, ?, ?, ?, ?)";

/// Reads all profiles, newest first.
pub const SELECT_ALL_SQL: &'static str =
    "SELECT id, name, db_type, host, port, username, password_encrypted, database, ssl_mode FROM connections ORDER BY created_at DESC";

/// Reads the profile of one id.
pub const SELECT_ONE_SQL: &'static str =
    "SELECT id, name, db_type, host, port, username, password_encrypted, database, ssl_mode FROM connections WHERE id = ?";

/// Deletes the profile of one id.
pub const DELETE_SQL: &'static str = "DELETE FROM connections WHERE id = ?";

/// The ciphertext with tag that AES-256-GCM makes of a plaintext, without
/// associated data: what `Aead::encrypt` returns.
pub uninterp spec fn aes_gcm_sealed(key: Seq<u8>, nonce: Seq<u8>, plaintext: Seq<u8>) -> Seq<u8>;

/// The plaintext that a ciphertext with tag opens to under AES-256-GCM,
/// where its tag is genuine: what `Aead::decrypt` returns.
pub uninterp spec fn aes_gcm_opened(key: Seq<u8>, nonce: Seq<u8>, sealed: Seq<u8>) -> Option<Seq<u8>>;

/// Calls `Aead::encrypt` of `aes_gcm::Aes256Gcm`. The result is the
/// ciphertext followed by its 16-byte tag, and it opens to the plaintext
/// under the same key and nonce. Longer plaintexts than
/// `MAX_PLAINTEXT_LENGTH` are refused by the cipher and are left out.
#[verifier::external_body]
fn aes_gcm_seal(key: &[u8; 32], nonce: &[u8; 12], plaintext: &[u8]) -> (sealed: Vec<u8>)
    requires
        plaintext@.len() <= MAX_PLAINTEXT_LENGTH,
    ensures
        sealed@ == aes_gcm_sealed(key@, nonce@, plaintext@),
        sealed@.len() == plaintext@.len() + TAG_LENGTH,
        aes_gcm_opened(key@, nonce@, sealed@) == Some(plaintext@),
{
    let cipher = aes_gcm::Aes256Gcm::new(aes_gcm::Key::<aes_gcm::Aes256Gcm>::from_slice(key));
    cipher.encrypt(aes_gcm::Nonce::from_slice(nonce), plaintext).unwrap()
}

/// Calls `Aead::decrypt` of `aes_gcm::Aes256Gcm`. The result is the
/// plaintext where the tag is genuine, and nothing otherwise. A nonce of
/// another length than 12 bytes is left out.
#[verifier::external_body]
fn aes_gcm_open(key: &[u8; 32], nonce: &[u8], sealed: &[u8]) -> (opened: Option<Vec<u8>>)
    requires
        nonce@.len() == NONCE_LENGTH,
    ensures
        match aes_gcm_opened(key@, nonce@, sealed@) {
            Some(p) => opened matches Some(v) && v@ == p,
            None => opened is None,
        },
{
    let cipher = aes_gcm::Aes256Gcm::new(aes_gcm::Key::<aes_gcm::Aes256Gcm>::from_slice(key));
    cipher.decrypt(aes_gcm::Nonce::from_slice(nonce), sealed).ok()
}

/// Draws `N` bytes from the operating system's random source, through
/// `RngCore::try_fill_bytes` of `OsRng`. Nothing is known of the bytes, nor
/// of whether the operating system has any to give.
#[verifier::external_body]
fn random_bytes<const N: usize>() -> (bytes: Option<[u8; N]>) {
    let mut bytes = [0u8; N];
    aes_gcm::aead::OsRng.try_fill_bytes(&mut bytes).ok().map(|_| bytes)
}

/// Sixteen bytes marked as a random UUID: the high half of byte 6 holds the
/// version 4, and the two high bits of byte 8 the variant of RFC 4122.
pub open spec fn version4_bytes(bytes: Seq<u8>) -> Seq<u8> {
    bytes.update(6, (bytes[6] & 0x0f) | 0x40).update(8, (bytes[8] & 0x3f) | 0x80)
}

/// Calls `uuid::Builder::from_random_bytes`, which marks the bytes as a
/// random UUID, and writes the UUID in its hyphenated lower-case form of 36
/// characters.
#[verifier::external_body]
fn version4_id(bytes: &[u8; 16]) -> (id: String)
    ensures
        id@ == uuid_text(version4_bytes(bytes@)),
        id@.len() == 36,
{
    uuid::Builder::from_random_bytes(*bytes).into_uuid().to_string()
}

/// Why the store could not do what was asked of it.
#[derive(Debug, Clone, Copy, PartialEq, Eq, Structural)]
pub enum StoreError {
    /// The password is longer than the cipher encrypts.
    PasswordTooLong,
    /// The operating system gave no random bytes.
    NoRandomBytes,
}

impl StoreError {
    /// The error in words.
    pub fn message(&self) -> (text: String)
        ensures
            text@ == (match *self {
                StoreError::PasswordTooLong => "Password is too long to be encrypted"@,
                StoreError::NoRandomBytes => "No random bytes are to be had"@,
            }),
    {
        match self {
            StoreError::PasswordTooLong => "Password is too long to be encrypted".to_owned(),
            StoreError::NoRandomBytes => "No random bytes are to be had".to_owned(),
        }
    }
}

/// What is stored for `password` when it is encrypted under `nonce`.
pub open spec fn encrypted_with(key: Seq<u8>, nonce: Seq<u8>, password: Seq<char>) -> Seq<char> {
    base64_encoding(nonce + aes_gcm_sealed(key, nonce, vstd::utf8::encode_utf8(password)))
}

/// The password that a stored value is read as. A value that is not base64
/// is taken as it stands. One that is, and holds a nonce, a ciphertext and a
/// genuine tag, is decrypted. Any other is taken as the base64 of the
/// password itself, as an earlier scheme stored it.
pub open spec fn decrypted(key: Seq<u8>, stored: Seq<char>) -> Seq<char> {
    match base64_decoding(stored) {
        None => stored,
        Some(combined) => if combined.len() < NONCE_LENGTH + TAG_LENGTH {
            utf8_lossy(combined)
        } else {
            match aes_gcm_opened(
                key,
                combined.take(NONCE_LENGTH as int),
                combined.skip(NONCE_LENGTH as int),
            ) {
                Some(plaintext) => utf8_lossy(plaintext),
                None => utf8_lossy(combined),
            }
        },
    }
}

/// Whether a password is short enough for the cipher.
pub open spec fn fits_cipher(password: Seq<char>) -> bool {
    vstd::utf8::encode_utf8(password).len() <= MAX_PLAINTEXT_LENGTH
}

/// `stored` is what encrypting `password` under `nonce` gives: the base64
/// text of the nonce followed by the ciphertext and its tag. Its length
/// follows from that of the password, it is neither the password nor as long
/// as the base64 text of the password, and it is read back as the password.
pub open spec fn is_sealed_password(
    key: Seq<u8>,
    nonce: Seq<u8>,
    password: Seq<char>,
    stored: Seq<char>,
) -> bool {
    let plain = vstd::utf8::encode_utf8(password);
    let sealed = aes_gcm_sealed(key, nonce, plain);
    &&& stored == encrypted_with(key, nonce, password)
    &&& sealed.len() == plain.len() + TAG_LENGTH
    &&& base64_decoding(stored) == Some(nonce + sealed)
    &&& stored.len() == base64_length(NONCE_LENGTH as nat + plain.len() + TAG_LENGTH as nat)
    &&& stored.len() > base64_length(plain.len())
    &&& stored.len() > password.len()
    &&& stored != password
    &&& decrypted(key, stored) == password
}

/// A text has no more characters than its UTF-8 encoding has bytes.
pub proof fn lemma_encoding_is_no_shorter(chars: Seq<char>)
    ensures
        chars.len() <= vstd::utf8::encode_utf8(chars).len(),
    decreases chars.len(),
{
    if chars.len() > 0 {
        lemma_encoding_is_no_shorter(chars.drop_first());
        assert(vstd::utf8::encode_scalar(chars[0] as u32).len() >= 1);
    }
}

/// A stored value is not the base64 text of its password, as an earlier
/// scheme stored it: that text is shorter.
pub proof fn lemma_sealed_is_not_legacy(
    key: Seq<u8>,
    nonce: Seq<u8>,
    password: Seq<char>,
    stored: Seq<char>,
    legacy: Seq<char>,
)
    requires
        is_sealed_password(key, nonce, password, stored),
        legacy.len() == base64_length(vstd::utf8::encode_utf8(password).len()),
    ensures
        stored != legacy,
{
}

fn concat_bytes(a: &[u8], b: &[u8]) -> (joined: Vec<u8>)
    ensures
        joined@ == a@ + b@,
{
    let mut joined: Vec<u8> = Vec::new();
    let mut i: usize = 0;
    while i < a.len()
        invariant
            i <= a.len(),
            joined@ =~= a@.take(i as int),
        decreases a.len() - i,
    {
        joined.push(a[i]);
        i = i + 1;
    }
    let mut j: usize = 0;
    while j < b.len()
        invariant
            j <= b.len(),
            joined@ =~= a@ + b@.take(j as int),
        decreases b.len() - j,
    {
        joined.push(b[j]);
        j = j + 1;
    }
    joined
}

/// The key that a key file holds: its content where that is exactly
/// `KEY_LENGTH` bytes, and none where the file is missing or of another size.
pub open spec fn key_in_file(content: Option<Seq<u8>>) -> Option<Seq<u8>> {
    match content {
        Some(bytes) => if bytes.len() == KEY_LENGTH {
            Some(bytes)
        } else {
            None
        },
        None => None,
    }
}

/// The content of an optional byte vector.
pub open spec fn optional_bytes(o: Option<Vec<u8>>) -> Option<Seq<u8>> {
    match o {
        Some(v) => Some(v@),
        None => None,
    }
}

/// The mathematical content of a `StoredConnection`.
pub struct StoredConnectionView {
    pub id: Seq<char>,
    pub name: Seq<char>,
    pub db_type: Seq<char>,
    pub host: Seq<char>,
    pub port: i32,
    pub username: Seq<char>,
    pub password_encrypted: Seq<char>,
    pub database: Seq<char>,
    pub ssl_mode: Seq<char>,
}

/// A connection profile as the store holds it.
#[derive(Debug, Clone)]
pub struct StoredConnection {
    /// Identity of the profile. An empty id asks for a new one.
    pub id: String,
    pub name: String,
    pub db_type: String,
    pub host: String,
    pub port: i32,
    pub username: String,
    /// The password: encrypted in a row of the store, plain everywhere else.
    pub password_encrypted: String,
    pub database: String,
    pub ssl_mode: String,
}

impl View for StoredConnection {
    type V = StoredConnectionView;

    open spec fn view(&self) -> StoredConnectionView {
        StoredConnectionView {
            id: self.id@,
            name: self.name@,
            db_type: self.db_type@,
            host: self.host@,
            port: self.port,
            username: self.username@,
            password_encrypted: self.password_encrypted@,
            database: self.database@,
            ssl_mode: self.ssl_mode@,
        }
    }
}

/// The profile that a row of the store stands for: the row with its
/// password decrypted.
pub open spec fn row_read(key: Seq<u8>, row: StoredConnectionView) -> StoredConnectionView {
    StoredConnectionView { password_encrypted: decrypted(key, row.password_encrypted), ..row }
}

/// What saving a profile comes to.
#[derive(Debug)]
pub struct SavedConnection {
    /// The row to write: the profile with its id settled and its password
    /// encrypted.
    pub row: StoredConnection,
    /// The profile to hand back: the same, with the password in plain.
    pub saved: StoredConnection,
}

/// The store's hold on the encryption key.
pub struct ConnectionsStore {
    encryption_key: [u8; KEY_LENGTH],
}

impl ConnectionsStore {
    /// The encryption key.
    pub closed spec fn key(&self) -> Seq<u8> {
        self.encryption_key@
    }

    /// A store on the key that the key file holds, or on a new random key
    /// where the file is missing or does not hold `KEY_LENGTH` bytes. The
    /// flag tells whether the key is new; a new key has to be written to the
    /// key file, and no password stored under another key can be read any
    /// more. A key file of the right size always gives a store; a new key
    /// needs random bytes.
    pub fn new(key_file: Option<Vec<u8>>) -> (opened: Result<(Self, bool), StoreError>)
        ensures
            match key_in_file(optional_bytes(key_file)) {
                Some(key) => opened matches Ok(o) && o.0.key() == key && !o.1,
                None => match opened {
                    Ok(o) => o.1 && o.0.key().len() == KEY_LENGTH,
                    Err(e) => e == StoreError::NoRandomBytes,
                },
            },
    {
        match key_file {
            Some(bytes) => {
                if bytes.len() == KEY_LENGTH {
                    let mut key = [0u8; KEY_LENGTH];
                    let mut i: usize = 0;
                    while i < KEY_LENGTH
                        invariant
                            i <= KEY_LENGTH,
                            bytes@.len() == KEY_LENGTH,
                            key@.take(i as int) =~= bytes@.take(i as int),
                        decreases KEY_LENGTH - i,
                    {
                        key[i] = bytes[i];
                        i = i + 1;
                    }
                    proof {
                        assert(key@.len() == KEY_LENGTH);
                        assert(key@.take(KEY_LENGTH as int) =~= key@);
                        assert(bytes@.take(KEY_LENGTH as int) =~= bytes@);
                    }
                    return Ok((ConnectionsStore { encryption_key: key }, false));
                }
            },
            None => {},
        }
        match random_bytes::<32>() {
            Some(key) => {
                let store = ConnectionsStore { encryption_key: key };
                proof {
                    assert(store.key().len() == KEY_LENGTH);
                }
                Ok((store, true))
            },
            None => Err(StoreError::NoRandomBytes),
        }
    }

    /// The id of a new profile, made of sixteen random bytes: a random UUID
    /// in its hyphenated form.
    pub fn new_id(random: &[u8; 16]) -> (id: String)
        ensures
            id@ == uuid_text(version4_bytes(random@)),
            id@.len() == 36,
    {
        version4_id(random)
    }

    /// The bytes of the encryption key, for the key file.
    pub fn key_bytes(&self) -> (bytes: Vec<u8>)
        ensures
            bytes@ == self.key(),
    {
        let empty: Vec<u8> = Vec::new();
        concat_bytes(self.encryption_key.as_slice(), empty.as_slice())
    }

    /// Encrypts a password under a given nonce. A password that is longer
    /// than the cipher encrypts is refused; any other is encrypted.
    pub fn encrypt_password_with_nonce(
        &self,
        nonce: &[u8; 12],
        password: &str,
    ) -> (sealed: Result<String, StoreError>)
        ensures
            match sealed {
                Ok(stored) => fits_cipher(password@) && is_sealed_password(
                    self.key(),
                    nonce@,
                    password@,
                    stored@,
                ),
                Err(e) => !fits_cipher(password@) && e == StoreError::PasswordTooLong,
            },
    {
        let plaintext = password.as_bytes();
        if plaintext.len() as u64 > MAX_PLAINTEXT_LENGTH {
            return Err(StoreError::PasswordTooLong);
        }
        let sealed = aes_gcm_seal(&self.encryption_key, nonce, plaintext);
        let combined = concat_bytes(nonce.as_slice(), sealed.as_slice());
        let stored = base64_encode(combined.as_slice());
        proof {
            assert(combined@.take(NONCE_LENGTH as int) =~= nonce@);
            assert(combined@.skip(NONCE_LENGTH as int) =~= sealed@);
            vstd::utf8::encode_utf8_valid_utf8(password@);
            vstd::utf8::encode_utf8_decode_utf8(password@);
            lemma_encoding_is_no_shorter(password@);
            assert(combined@.len() == NONCE_LENGTH + plaintext@.len() + TAG_LENGTH);
        }
        Ok(stored)
    }

    /// Encrypts a password under a fresh random nonce. A password that is
    /// longer than the cipher encrypts is refused. Whatever nonce is drawn,
    /// the stored value decrypts to the password.
    pub fn encrypt_password(&self, password: &str) -> (sealed: Result<String, StoreError>)
        ensures
            match sealed {
                Ok(stored) => fits_cipher(password@) && exists|nonce: Seq<u8>|
                    nonce.len() == NONCE_LENGTH && #[trigger] is_sealed_password(
                        self.key(),
                        nonce,
                        password@,
                        stored@,
                    ),
                Err(e) => e == (if fits_cipher(password@) {
                    StoreError::NoRandomBytes
                } else {
                    StoreError::PasswordTooLong
                }),
            },
    {
        if password.as_bytes().len() as u64 > MAX_PLAINTEXT_LENGTH {
            return Err(StoreError::PasswordTooLong);
        }
        match random_bytes::<12>() {
            Some(nonce) => {
                let sealed = self.encrypt_password_with_nonce(&nonce, password);
                proof {
                    if sealed is Ok {
                        assert(is_sealed_password(self.key(), nonce@, password@, sealed->Ok_0@));
                    }
                }
                sealed
            },
            None => Err(StoreError::NoRandomBytes),
        }
    }

    /// Reads a stored value as a password.
    pub fn decrypt_password(&self, encrypted: &str) -> (password: String)
        ensures
            password@ == decrypted(self.key(), encrypted@),
    {
        let combined = match base64_decode(encrypted) {
            Some(data) => data,
            None => {
                return encrypted.to_owned();
            },
        };
        if combined.len() < NONCE_LENGTH + TAG_LENGTH {
            return lossy_text(combined.as_slice());
        }
        let nonce = slice_subrange(combined.as_slice(), 0, NONCE_LENGTH);
        let sealed = slice_subrange(combined.as_slice(), NONCE_LENGTH, combined.len());
        proof {
            assert(nonce@ =~= combined@.take(NONCE_LENGTH as int));
            assert(sealed@ =~= combined@.skip(NONCE_LENGTH as int));
        }
        match aes_gcm_open(&self.encryption_key, nonce, sealed) {
            Some(plaintext) => lossy_text(plaintext.as_slice()),
            None => lossy_text(combined.as_slice()),
        }
    }

    /// Prepares a profile for saving: an empty id is replaced by a new one,
    /// and the row to write carries the password encrypted, which is not
    /// the password as it was given. A password that is longer than the
    /// cipher encrypts is refused.
    pub fn save_connection(&self, conn: StoredConnection) -> (out: Result<SavedConnection, StoreError>)
        ensures
            match out {
                Ok(o) => {
                    &&& fits_cipher(conn.password_encrypted@)
                    &&& conn.id@.len() > 0 ==> o.saved@ == conn@
                    &&& conn.id@.len() == 0 ==> o.saved.id@.len() == 36 && o.saved@ == (
                    StoredConnectionView { id: o.saved.id@, ..conn@ })
                    &&& conn.id@.len() == 0 ==> exists|random: Seq<u8>|
                        random.len() == 16 && o.saved.id@ == #[trigger] uuid_text(
                            version4_bytes(random),
                        )
                    &&& row_read(self.key(), o.row@) == o.saved@
                    &&& o.row.password_encrypted@ != conn.password_encrypted@
                    &&& exists|nonce: Seq<u8>|
                        nonce.len() == NONCE_LENGTH && #[trigger] is_sealed_password(
                            self.key(),
                            nonce,
                            conn.password_encrypted@,
                            o.row.password_encrypted@,
                        )
                },
                Err(e) => e == (if fits_cipher(conn.password_encrypted@) {
                    StoreError::NoRandomBytes
                } else {
                    StoreError::PasswordTooLong
                }),
            },
    {
        if conn.password_encrypted.as_str().as_bytes().len() as u64 > MAX_PLAINTEXT_LENGTH {
            return Err(StoreError::PasswordTooLong);
        }
        let id = if conn.id.as_str().unicode_len() == 0 {
            match random_bytes::<16>() {
                Some(bytes) => {
                    let id = Self::new_id(&bytes);
                    proof {
                        assert(bytes@.len() == 16);
                        assert(id@ == uuid_text(version4_bytes(bytes@)));
                    }
                    id
                },
                None => {
                    return Err(StoreError::NoRandomBytes);
                },
            }
        } else {
            conn.id.clone()
        };
        let password_encrypted = match self.encrypt_password(conn.password_encrypted.as_str()) {
            Ok(stored) => stored,
            Err(e) => {
                return Err(e);
            },
        };
        let row = StoredConnection {
            id: id.clone(),
            name: conn.name.clone(),
            db_type: conn.db_type.clone(),
            host: conn.host.clone(),
            port: conn.port,
            username: conn.username.clone(),
            password_encrypted,
            database: conn.database.clone(),
            ssl_mode: conn.ssl_mode.clone(),
        };
        let saved = StoredConnection {
            id,
            name: conn.name,
            db_type: conn.db_type,
            host: conn.host,
            port: conn.port,
            username: conn.username,
            password_encrypted: conn.password_encrypted,
            database: conn.database,
            ssl_mode: conn.ssl_mode,
        };
        Ok(SavedConnection { row, saved })
    }

    /// The profile that a row of the store stands for.
    pub fn read_row(&self, row: &StoredConnection) -> (conn: StoredConnection)
        ensures
            conn@ == row_read(self.key(), row@),
    {
        let password = self.decrypt_password(row.password_encrypted.as_str());
        StoredConnection {
            id: row.id.clone(),
            name: row.name.clone(),
            db_type: row.db_type.clone(),
            host: row.host.clone(),
            port: row.port,
            username: row.username.clone(),
            password_encrypted: password,
            database: row.database.clone(),
            ssl_mode: row.ssl_mode.clone(),
        }
    }

    /// The profiles that the rows of the store stand for, in the order of
    /// the rows.
    pub fn get_all_connections(&self, rows: Vec<StoredConnection>) -> (conns: Vec<StoredConnection>)
        ensures
            conns@.len() == rows@.len(),
            forall|i: int|
                0 <= i < rows@.len() ==> (#[trigger] conns@[i])@ == row_read(
                    self.key(),
                    rows@[i]@,
                ),
    {
        let mut conns: Vec<StoredConnection> = Vec::new();
        let mut i: usize = 0;
        while i < rows.len()
            invariant
                i <= rows.len(),
                conns@.len() == i,
                forall|j: int|
                    0 <= j < i ==> (#[trigger] conns@[j])@ == row_read(self.key(), rows@[j]@),
            decreases rows.len() - i,
        {
            conns.push(self.read_row(&rows[i]));
            i = i + 1;
        }
        conns
    }

    /// The profile of one id, where the store holds a row for it.
    pub fn get_connection(&self, row: Option<StoredConnection>) -> (conn: Option<StoredConnection>)
        ensures
            match row {
                Some(r) => conn matches Some(c) && c@ == row_read(self.key(), r@),
                None => conn is None,
            },
    {
        match row {
            Some(r) => Some(self.read_row(&r)),
            None => None,
        }
    }

    /// Whether a deletion that removed `rows_deleted` rows deleted the
    /// profile. Deleting an id that the store does not hold is no error.
    pub fn delete_connection(rows_deleted: usize) -> (deleted: bool)
        ensures
            deleted == (rows_deleted > 0),
    {
        rows_deleted > 0
    }
}

/// A value stored by the earlier scheme, the base64 of the password itself,
/// is read as that password, unless it also passes as a ciphertext with a
/// genuine tag under the key.
pub proof fn lemma_legacy_value_is_read(key: Seq<u8>, stored: Seq<char>, password: Seq<char>)
    requires
        base64_decoding(stored) == Some(vstd::utf8::encode_utf8(password)),
        vstd::utf8::encode_utf8(password).len() < NONCE_LENGTH + TAG_LENGTH || aes_gcm_opened(
            key,
            vstd::utf8::encode_utf8(password).take(NONCE_LENGTH as int),
            vstd::utf8::encode_utf8(password).skip(NONCE_LENGTH as int),
        ) is None,
    ensures
        decrypted(key, stored) == password,
{
    vstd::utf8::encode_utf8_valid_utf8(password);
    vstd::utf8::encode_utf8_decode_utf8(password);
}

} // verus!
