use chamber_vault::access::Role;
use chamber_vault::errors::DatabaseError;
use chamber_vault::kv::InMemoryDatabase;

#[test]
fn provision_starts_sealed_and_unseals_with_root_key_only() {
    let mut db = InMemoryDatabase::with_root_key("R0OT".to_string());
    assert!(db.is_locked());

    let r = db.unlock("wrong".to_string());
    assert_eq!(r, Err(DatabaseError::Forbidden));
    assert!(db.is_locked());

    let r = db.unlock("R0OT".to_string());
    assert_eq!(r, Ok(true));
    assert!(!db.is_locked());
}

#[test]
fn generated_root_key_has_credential_length() {
    let db = InMemoryDatabase::new();
    assert_eq!(db.get_root_key().chars().count(), 20);
    assert!(db.is_locked());
}

#[test]
fn sealed_operations_fail_with_sealed_error_and_change_nothing() {
    let mut db = InMemoryDatabase::with_root_key("R0OT".to_string());

    assert_eq!(
        db.create_secret("a".to_string(), "v".to_string()),
        Err(DatabaseError::SealedError)
    );
    assert_eq!(
        db.view_secret(Role::Admin, "a".to_string()),
        Err(DatabaseError::SealedError)
    );
    assert_eq!(
        db.view_all_secrets(Role::Admin),
        Err(DatabaseError::SealedError)
    );
    assert_eq!(
        db.delete_secret(Role::Admin, "a".to_string()),
        Err(DatabaseError::SealedError)
    );
    assert!(matches!(db.view_users(), Err(DatabaseError::SealedError)));
    assert!(matches!(
        db.get_user_from_password("p".to_string()),
        Err(DatabaseError::SealedError)
    ));
    assert!(matches!(
        db.view_user_by_name("alice".to_string()),
        Err(DatabaseError::SealedError)
    ));
    assert_eq!(
        db.update_role(&"alice".to_string(), Role::Admin),
        Err(DatabaseError::SealedError)
    );
    assert_eq!(
        db.delete_user("alice".to_string()),
        Err(DatabaseError::SealedError)
    );
    assert!(matches!(
        db.login("p".to_string(), 0, 10),
        Err(DatabaseError::SealedError)
    ));

    // After unsealing, the store shows that nothing was touched.
    assert_eq!(db.unlock("R0OT".to_string()), Ok(true));
    let names = db.view_all_secrets(Role::Admin).unwrap();
    assert!(names.is_empty());
    let users = db.view_users().unwrap();
    assert!(users.is_empty());
}

#[test]
fn user_creation_is_root_key_gated_not_seal_gated() {
    let mut db = InMemoryDatabase::with_root_key("R0OT".to_string());
    assert!(db.is_locked());

    // The one privileged operation permitted while sealed, gated by the
    // root key instead.
    let cred = db.create_user(&"R0OT".to_string(), "alice".to_string(), Role::Guest);
    assert!(cred.is_ok());

    let denied = db.create_user(&"nope".to_string(), "bob".to_string(), Role::Guest);
    assert_eq!(denied, Err(DatabaseError::Forbidden));
}
