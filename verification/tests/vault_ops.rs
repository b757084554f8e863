use chamber_vault::access::Role;
use chamber_vault::errors::DatabaseError;
use chamber_vault::kv::InMemoryDatabase;

fn unsealed_db() -> InMemoryDatabase {
    let mut db = InMemoryDatabase::with_root_key("R0OT".to_string());
    db.unlock("R0OT".to_string()).unwrap();
    db
}

#[test]
fn round_trip_create_then_view() {
    let mut db = unsealed_db();
    assert_eq!(
        db.create_secret("db_pass".to_string(), "s3cr3t".to_string()),
        Ok(())
    );
    assert_eq!(
        db.view_secret(Role::Admin, "db_pass".to_string()),
        Ok("s3cr3t".to_string())
    );

    let names = db.view_all_secrets(Role::Admin).unwrap();
    assert!(names.iter().any(|n| n == "db_pass"));
    assert!(!names.iter().any(|n| n == "s3cr3t"));
}

#[test]
fn round_trip_empty_and_unicode_values() {
    let mut db = unsealed_db();
    db.create_secret("empty".to_string(), String::new()).unwrap();
    db.create_secret("uni".to_string(), "p\u{00e4}ss\u{1f512}".to_string())
        .unwrap();
    assert_eq!(
        db.view_secret(Role::Admin, "empty".to_string()),
        Ok(String::new())
    );
    assert_eq!(
        db.view_secret(Role::Admin, "uni".to_string()),
        Ok("p\u{00e4}ss\u{1f512}".to_string())
    );
}

#[test]
fn view_of_absent_name_is_key_not_found() {
    let db = unsealed_db();
    assert_eq!(
        db.view_secret(Role::Admin, "nope".to_string()),
        Err(DatabaseError::KeyNotFound)
    );
}

#[test]
fn create_overwrites_prior_value() {
    let mut db = unsealed_db();
    db.create_secret("k".to_string(), "one".to_string()).unwrap();
    db.create_secret("k".to_string(), "two".to_string()).unwrap();
    assert_eq!(
        db.view_secret(Role::Admin, "k".to_string()),
        Ok("two".to_string())
    );
    let names = db.view_all_secrets(Role::Admin).unwrap();
    assert_eq!(names.iter().filter(|n| *n == "k").count(), 1);
}

#[test]
fn delete_removes_the_entry() {
    let mut db = unsealed_db();
    db.create_secret("k".to_string(), "v".to_string()).unwrap();
    assert_eq!(db.delete_secret(Role::Admin, "k".to_string()), Ok(()));
    assert_eq!(
        db.view_secret(Role::Admin, "k".to_string()),
        Err(DatabaseError::KeyNotFound)
    );
    assert_eq!(
        db.delete_secret(Role::Admin, "k".to_string()),
        Err(DatabaseError::KeyNotFound)
    );
}

#[test]
fn guest_role_is_forbidden_on_read_and_delete() {
    let mut db = unsealed_db();
    db.create_secret("k".to_string(), "v".to_string()).unwrap();

    assert_eq!(
        db.view_secret(Role::Guest, "k".to_string()),
        Err(DatabaseError::Forbidden)
    );
    assert_eq!(
        db.delete_secret(Role::Guest, "k".to_string()),
        Err(DatabaseError::Forbidden)
    );

    // The secret is untouched and any authenticated role may still list.
    assert_eq!(
        db.view_secret(Role::Admin, "k".to_string()),
        Ok("v".to_string())
    );
    let names = db.view_all_secrets(Role::Guest).unwrap();
    assert!(names.iter().any(|n| n == "k"));
}

#[test]
fn ciphertexts_of_different_plaintexts_differ() {
    let mut db = unsealed_db();
    db.create_secret("a".to_string(), "first-value".to_string())
        .unwrap();
    db.create_secret("b".to_string(), "second-value".to_string())
        .unwrap();
    let (_, ct_a) = db.stored_entry(&"a".to_string()).unwrap();
    let (_, ct_b) = db.stored_entry(&"b".to_string()).unwrap();
    assert_ne!(ct_a, ct_b);

    // The stored bytes are not the plaintext: 16 bytes of tag follow the
    // encrypted body, and no prefix spells the value out.
    assert_eq!(ct_a.len(), "first-value".len() + 16);
    assert_ne!(&ct_a[.."first-value".len()], "first-value".as_bytes());
}

#[test]
fn nonces_are_fresh_per_encryption() {
    let mut db = unsealed_db();
    db.create_secret("a".to_string(), "same".to_string()).unwrap();
    db.create_secret("b".to_string(), "same".to_string()).unwrap();
    let (nonce_a, ct_a) = db.stored_entry(&"a".to_string()).unwrap();
    let (nonce_b, ct_b) = db.stored_entry(&"b".to_string()).unwrap();
    assert_ne!(nonce_a, nonce_b);
    assert_ne!(ct_a, ct_b);
}

#[test]
fn flipping_any_ciphertext_bit_is_detected() {
    let mut db = unsealed_db();
    db.create_secret("k".to_string(), "v3ry-secret".to_string())
        .unwrap();
    let (nonce, ct) = db.stored_entry(&"k".to_string()).unwrap();

    for byte in 0..ct.len() {
        for bit in 0..8 {
            let mut tampered = ct.clone();
            tampered[byte] ^= 1u8 << bit;
            db.restore_secret("k".to_string(), nonce.clone(), tampered)
                .unwrap();
            assert_eq!(
                db.view_secret(Role::Admin, "k".to_string()),
                Err(DatabaseError::DecryptionError)
            );
        }
    }

    // The untampered bytes still decrypt.
    db.restore_secret("k".to_string(), nonce, ct).unwrap();
    assert_eq!(
        db.view_secret(Role::Admin, "k".to_string()),
        Ok("v3ry-secret".to_string())
    );
}

#[test]
fn flipping_any_nonce_bit_is_detected() {
    let mut db = unsealed_db();
    db.create_secret("k".to_string(), "v3ry-secret".to_string())
        .unwrap();
    let (nonce, ct) = db.stored_entry(&"k".to_string()).unwrap();

    for byte in 0..nonce.len() {
        for bit in 0..8 {
            let mut tampered = nonce.clone();
            tampered[byte] ^= 1u8 << bit;
            db.restore_secret("k".to_string(), tampered, ct.clone())
                .unwrap();
            assert_eq!(
                db.view_secret(Role::Admin, "k".to_string()),
                Err(DatabaseError::DecryptionError)
            );
        }
    }
}

#[test]
fn distinct_creates_are_all_retrievable() {
    let mut db = unsealed_db();
    let pairs = [("n1", "v1"), ("n2", "v2"), ("n3", "v3"), ("n4", "v4")];
    for (name, value) in pairs.iter() {
        db.create_secret(name.to_string(), value.to_string()).unwrap();
    }
    for (name, value) in pairs.iter() {
        assert_eq!(
            db.view_secret(Role::Admin, name.to_string()),
            Ok(value.to_string())
        );
    }
    let names = db.view_all_secrets(Role::Admin).unwrap();
    assert_eq!(names.len(), 4);
}
