use aes_gcm::aead::{Aead, KeyInit};
use base64::Engine;
use db_access::storage::{ConnectionsStore, StoreError, StoredConnection};

fn store() -> ConnectionsStore {
    let (store, fresh) = ConnectionsStore::new(Some(vec![7u8; 32])).unwrap();
    assert!(!fresh);
    store
}

fn profile(id: &str, password: &str) -> StoredConnection {
    StoredConnection {
        id: id.to_string(),
        name: "Local".to_string(),
        db_type: "mariadb".to_string(),
        host: "localhost".to_string(),
        port: 3306,
        username: "root".to_string(),
        password_encrypted: password.to_string(),
        database: "shop".to_string(),
        ssl_mode: "preferred".to_string(),
    }
}

#[test]
fn password_round_trips_through_encryption() {
    let store = store();
    for password in ["", "secret", "pässwörd ✓", "a'b\\c", &"x".repeat(10_000)] {
        let stored = store.encrypt_password(password).unwrap();
        assert_ne!(stored, password);
        assert_eq!(store.decrypt_password(&stored), password);
    }
}

#[test]
fn every_encryption_draws_a_fresh_nonce() {
    let store = store();
    let first = store.encrypt_password("secret").unwrap();
    let second = store.encrypt_password("secret").unwrap();
    assert_ne!(first, second);
    assert_eq!(store.decrypt_password(&first), store.decrypt_password(&second));
}

#[test]
fn stored_value_is_base64_of_nonce_and_ciphertext_with_tag() {
    let store = store();
    let nonce = [9u8; 12];
    let stored = store.encrypt_password_with_nonce(&nonce, "secret").unwrap();
    let bytes = base64::engine::general_purpose::STANDARD.decode(&stored).unwrap();
    assert_eq!(bytes.len(), 12 + 6 + 16);
    assert_eq!(&bytes[..12], &nonce);

    let cipher = aes_gcm::Aes256Gcm::new_from_slice(&[7u8; 32]).unwrap();
    let sealed = cipher.encrypt(aes_gcm::Nonce::from_slice(&nonce), "secret".as_bytes()).unwrap();
    assert_eq!(&bytes[12..], &sealed[..]);
    assert_eq!(store.decrypt_password(&stored), "secret");
}

#[test]
fn value_encrypted_elsewhere_is_decrypted() {
    let store = store();
    let nonce = [3u8; 12];
    let cipher = aes_gcm::Aes256Gcm::new_from_slice(&[7u8; 32]).unwrap();
    let sealed = cipher.encrypt(aes_gcm::Nonce::from_slice(&nonce), "from outside".as_bytes()).unwrap();
    let mut combined = nonce.to_vec();
    combined.extend_from_slice(&sealed);
    let stored = base64::engine::general_purpose::STANDARD.encode(&combined);
    assert_eq!(store.decrypt_password(&stored), "from outside");
}

#[test]
fn legacy_base64_value_is_read_as_its_plaintext() {
    let store = store();
    assert_eq!(store.decrypt_password("cGFzc3dvcmQ="), "password");
    assert_eq!(store.decrypt_password(""), "");
    let long = "a legacy password that is longer than a nonce and a tag together";
    let stored = base64::engine::general_purpose::STANDARD.encode(long);
    assert_eq!(store.decrypt_password(&stored), long);
}

#[test]
fn value_that_is_not_base64_is_taken_as_it_stands() {
    let store = store();
    assert_eq!(store.decrypt_password("not base64!"), "not base64!");
    assert_eq!(store.decrypt_password("pässword"), "pässword");
}

#[test]
fn value_under_another_key_falls_back_to_its_bytes() {
    let (other, _) = ConnectionsStore::new(Some(vec![8u8; 32])).unwrap();
    let stored = other.encrypt_password_with_nonce(&[1u8; 12], "secret").unwrap();
    let bytes = base64::engine::general_purpose::STANDARD.decode(&stored).unwrap();
    let expected = String::from_utf8_lossy(&bytes).to_string();
    assert_eq!(store().decrypt_password(&stored), expected);
    assert_ne!(store().decrypt_password(&stored), "secret");
}

#[test]
fn key_file_of_the_right_size_is_the_key() {
    let bytes: Vec<u8> = (0..32).collect();
    let (store, fresh) = ConnectionsStore::new(Some(bytes.clone())).unwrap();
    assert!(!fresh);
    assert_eq!(store.key_bytes(), bytes);
}

#[test]
fn missing_or_malformed_key_file_gives_a_new_key() {
    let (store, fresh) = ConnectionsStore::new(None).unwrap();
    assert!(fresh);
    assert_eq!(store.key_bytes().len(), 32);
    let (short, fresh) = ConnectionsStore::new(Some(vec![1u8; 31])).unwrap();
    assert!(fresh);
    assert_eq!(short.key_bytes().len(), 32);
    let (long, fresh) = ConnectionsStore::new(Some(vec![1u8; 33])).unwrap();
    assert!(fresh);
    assert_eq!(long.key_bytes().len(), 32);
    let (empty, fresh) = ConnectionsStore::new(Some(vec![])).unwrap();
    assert!(fresh);
    assert_ne!(empty.key_bytes(), store.key_bytes());
}

#[test]
fn saving_without_id_generates_one() {
    let store = store();
    let out = store.save_connection(profile("", "secret")).unwrap();
    assert_eq!(out.saved.id.len(), 36);
    let id = uuid::Uuid::parse_str(&out.saved.id).unwrap();
    assert_eq!(id.get_version_num(), 4);
    assert_eq!(id.get_variant(), uuid::Variant::RFC4122);
    assert_eq!(out.saved.id, id.hyphenated().to_string());
    assert_eq!(out.row.id, out.saved.id);
    assert_eq!(out.saved.password_encrypted, "secret");
    assert_ne!(out.row.password_encrypted, "secret");
    assert_eq!(store.decrypt_password(&out.row.password_encrypted), "secret");
    assert_eq!(out.row.name, "Local");
    assert_eq!(out.row.port, 3306);
    assert_eq!(out.saved.ssl_mode, "preferred");

    let again = store.save_connection(profile("", "secret")).unwrap();
    assert_ne!(again.saved.id, out.saved.id);
}

#[test]
fn saving_with_id_keeps_it() {
    let store = store();
    let out = store.save_connection(profile("abc", "pw")).unwrap();
    assert_eq!(out.saved.id, "abc");
    assert_eq!(out.row.id, "abc");
    assert_eq!(out.saved.password_encrypted, "pw");
    assert_eq!(out.saved.database, "shop");
    assert_eq!(out.row.host, "localhost");
    assert_eq!(out.row.username, "root");
    assert_eq!(out.row.db_type, "mariadb");
}

#[test]
fn rows_are_read_in_order_with_passwords_decrypted() {
    let store = store();
    let newest = store.save_connection(profile("2", "two")).unwrap().row;
    let oldest = store.save_connection(profile("1", "one")).unwrap().row;
    let conns = store.get_all_connections(vec![newest.clone(), oldest]);
    let ids: Vec<&str> = conns.iter().map(|c| c.id.as_str()).collect();
    assert_eq!(ids, vec!["2", "1"]);
    let passwords: Vec<&str> = conns.iter().map(|c| c.password_encrypted.as_str()).collect();
    assert_eq!(passwords, vec!["two", "one"]);
    assert!(store.get_all_connections(vec![]).is_empty());

    let one = store.get_connection(Some(newest)).unwrap();
    assert_eq!(one.id, "2");
    assert_eq!(one.password_encrypted, "two");
    assert!(store.get_connection(None).is_none());
    let read = store.read_row(&profile("3", "cGFzc3dvcmQ="));
    assert_eq!(read.password_encrypted, "password");
}

#[test]
fn deleting_nothing_reports_not_deleted() {
    assert!(!ConnectionsStore::delete_connection(0));
    assert!(ConnectionsStore::delete_connection(1));
    assert!(ConnectionsStore::delete_connection(2));
}

#[test]
fn stored_value_is_never_the_password_nor_its_base64() {
    let store = store();
    for password in ["", "a", "secret", "cGFzc3dvcmQ=", "pässwörd ✓", &"x".repeat(1000)] {
        let stored = store.encrypt_password(password).unwrap();
        let plain_base64 = base64::engine::general_purpose::STANDARD.encode(password);
        assert_ne!(stored, password);
        assert_ne!(stored, plain_base64);
        let bytes = base64::engine::general_purpose::STANDARD.decode(&stored).unwrap();
        assert_eq!(bytes.len(), 12 + password.len() + 16);
        assert_eq!(stored.len(), 4 * ((bytes.len() + 2) / 3));
        assert!(stored.len() > plain_base64.len());
        assert!(stored.len() > password.chars().count());

        let saved = store.save_connection(profile("id", password)).unwrap();
        assert_ne!(saved.row.password_encrypted, password);
        assert_ne!(saved.row.password_encrypted, plain_base64);
        assert_eq!(saved.saved.password_encrypted, password);
    }
}

#[test]
fn store_errors_have_words() {
    assert_eq!(StoreError::PasswordTooLong.message(), "Password is too long to be encrypted");
    assert_eq!(StoreError::NoRandomBytes.message(), "No random bytes are to be had");
    assert_ne!(StoreError::PasswordTooLong, StoreError::NoRandomBytes);
}

#[test]
fn profile_id_is_a_random_uuid_of_the_bytes_drawn() {
    assert_eq!(ConnectionsStore::new_id(&[0u8; 16]), "00000000-0000-4000-8000-000000000000");
    assert_eq!(ConnectionsStore::new_id(&[0xffu8; 16]), "ffffffff-ffff-4fff-bfff-ffffffffffff");
    let bytes: [u8; 16] = [
        0x00, 0x11, 0x22, 0x33, 0x44, 0x55, 0x66, 0x77, 0x88, 0x99, 0xaa, 0xbb, 0xcc, 0xdd, 0xee,
        0xff,
    ];
    assert_eq!(ConnectionsStore::new_id(&bytes), "00112233-4455-4677-8899-aabbccddeeff");
    for seed in 0..=255u8 {
        let mut random = [0u8; 16];
        for (i, b) in random.iter_mut().enumerate() {
            *b = seed.wrapping_mul(37).wrapping_add((i as u8).wrapping_mul(11));
        }
        let expected = uuid::Builder::from_random_bytes(random).into_uuid().to_string();
        assert_eq!(ConnectionsStore::new_id(&random), expected);
        let mut marked = random;
        marked[6] = (marked[6] & 0x0f) | 0x40;
        marked[8] = (marked[8] & 0x3f) | 0x80;
        assert_eq!(ConnectionsStore::new_id(&random), uuid::Uuid::from_bytes(marked).to_string());
    }
}
