use chamber_vault::access::Role;
use chamber_vault::errors::DatabaseError;
use chamber_vault::kv::InMemoryDatabase;

const ROOT: &str = "R0OT";

fn unsealed_db() -> InMemoryDatabase {
    let mut db = InMemoryDatabase::with_root_key(ROOT.to_string());
    db.unlock(ROOT.to_string()).unwrap();
    db
}

#[test]
fn created_user_logs_in_with_the_returned_credential() {
    let mut db = unsealed_db();
    let cred = db
        .create_user(&ROOT.to_string(), "alice".to_string(), Role::Guest)
        .unwrap();
    assert_eq!(cred.chars().count(), 20);

    let token = db.login(cred, 100, 1_000).unwrap();
    assert_eq!(token.subject, "alice");
    assert_eq!(token.role, Role::Guest);
    assert_eq!(token.issued_at, 100);
    assert_eq!(token.expires_at, 1_100);

    let bad = db.login("wrong-credential".to_string(), 100, 1_000);
    assert!(matches!(bad, Err(DatabaseError::UserNotFound)));
}

#[test]
fn duplicate_username_is_rejected_and_directory_unchanged() {
    let mut db = unsealed_db();
    let cred = db
        .create_user(&ROOT.to_string(), "alice".to_string(), Role::Guest)
        .unwrap();
    let second = db.create_user(&ROOT.to_string(), "alice".to_string(), Role::Admin);
    assert!(matches!(second, Err(DatabaseError::UserAlreadyExists)));

    // The first user still exists, with the first credential and role.
    let token = db.login(cred, 0, 10).unwrap();
    assert_eq!(token.subject, "alice");
    assert_eq!(token.role, Role::Guest);
    assert_eq!(db.view_users().unwrap().len(), 1);
}

#[test]
fn requested_role_is_stored() {
    let mut db = unsealed_db();
    db.create_user(&ROOT.to_string(), "root-ish".to_string(), Role::Admin)
        .unwrap();
    let user = db.view_user_by_name("root-ish".to_string()).unwrap();
    assert_eq!(user.role, Role::Admin);
}

#[test]
fn update_role_keeps_name_and_credential() {
    let mut db = unsealed_db();
    let cred = db
        .create_user(&ROOT.to_string(), "alice".to_string(), Role::Guest)
        .unwrap();
    db.update_role(&"alice".to_string(), Role::Admin).unwrap();

    let user = db.view_user_by_name("alice".to_string()).unwrap();
    assert_eq!(user.role, Role::Admin);
    let token = db.login(cred, 0, 10).unwrap();
    assert_eq!(token.role, Role::Admin);

    let missing = db.update_role(&"bob".to_string(), Role::Admin);
    assert!(matches!(missing, Err(DatabaseError::UserNotFound)));
}

#[test]
fn delete_user_removes_the_user() {
    let mut db = unsealed_db();
    let cred = db
        .create_user(&ROOT.to_string(), "alice".to_string(), Role::Guest)
        .unwrap();
    db.delete_user("alice".to_string()).unwrap();

    assert!(matches!(
        db.view_user_by_name("alice".to_string()),
        Err(DatabaseError::UserNotFound)
    ));
    assert!(matches!(
        db.login(cred, 0, 10),
        Err(DatabaseError::UserNotFound)
    ));
    assert!(matches!(
        db.delete_user("alice".to_string()),
        Err(DatabaseError::UserNotFound)
    ));
}

#[test]
fn credential_lookup_finds_the_user() {
    let mut db = unsealed_db();
    let cred = db
        .create_user(&ROOT.to_string(), "alice".to_string(), Role::Guest)
        .unwrap();
    let user = db.get_user_from_password(cred.clone()).unwrap();
    assert_eq!(user.username, "alice");
    assert_eq!(user.password, cred);
}

#[test]
fn issued_token_verifies_until_expiry() {
    let db = unsealed_db();
    let mut db = db;
    let cred = db
        .create_user(&ROOT.to_string(), "alice".to_string(), Role::Guest)
        .unwrap();
    let token = db.login(cred, 100, 1_000).unwrap();

    let ok = db.verify_session(&token, 500).unwrap();
    assert_eq!(ok.0, "alice");
    assert_eq!(ok.1, Role::Guest);

    assert_eq!(
        db.verify_session(&token, 1_100),
        Err(DatabaseError::Expired)
    );
    assert_eq!(
        db.verify_session(&token, 5_000),
        Err(DatabaseError::Expired)
    );
}

#[test]
fn tampered_tokens_are_invalid() {
    let mut db = unsealed_db();
    let cred = db
        .create_user(&ROOT.to_string(), "alice".to_string(), Role::Guest)
        .unwrap();
    let token = db.login(cred, 100, 1_000).unwrap();

    let mut t = clone_token(&token);
    t.subject = "mallory".to_string();
    assert_eq!(db.verify_session(&t, 500), Err(DatabaseError::InvalidToken));

    let mut t = clone_token(&token);
    t.role = Role::Admin;
    assert_eq!(db.verify_session(&t, 500), Err(DatabaseError::InvalidToken));

    let mut t = clone_token(&token);
    t.expires_at = u64::MAX;
    assert_eq!(db.verify_session(&t, 500), Err(DatabaseError::InvalidToken));

    let mut t = clone_token(&token);
    t.sig[0] ^= 1;
    assert_eq!(db.verify_session(&t, 500), Err(DatabaseError::InvalidToken));

    let mut t = clone_token(&token);
    t.nonce[0] ^= 1;
    assert_eq!(db.verify_session(&t, 500), Err(DatabaseError::InvalidToken));

    // The untouched token still verifies.
    assert!(db.verify_session(&token, 500).is_ok());
}

#[test]
fn token_from_another_store_is_invalid() {
    let mut db1 = unsealed_db();
    let mut db2 = InMemoryDatabase::with_root_key(ROOT.to_string());
    db2.unlock(ROOT.to_string()).unwrap();

    let cred = db1
        .create_user(&ROOT.to_string(), "alice".to_string(), Role::Guest)
        .unwrap();
    let token = db1.login(cred, 100, 1_000).unwrap();

    // Each store holds its own signing secret.
    assert_eq!(
        db2.verify_session(&token, 500),
        Err(DatabaseError::InvalidToken)
    );
    assert!(db1.verify_session(&token, 500).is_ok());
}

fn clone_token(
    t: &chamber_vault::session::SessionToken,
) -> chamber_vault::session::SessionToken {
    chamber_vault::session::SessionToken {
        subject: t.subject.clone(),
        role: t.role,
        issued_at: t.issued_at,
        expires_at: t.expires_at,
        nonce: t.nonce.clone(),
        sig: t.sig.clone(),
    }
}
