use auth_server::crypto::{generate_hash, generate_salt, verify_hash};
use auth_server::database::Database;
use auth_server::user::{UserAccount, UserRole};

fn account(username: &str, password: &str, phone: &str, role: UserRole) -> UserAccount {
    let salt = generate_salt();
    let hash = generate_hash(password, &salt);
    UserAccount::new(username.to_string(), hash, salt, phone.to_string(), role)
}

#[test]
fn salt_is_32_bytes() {
    assert_eq!(generate_salt().len(), 32);
}

#[test]
fn hashing_is_deterministic_per_salt() {
    let salt = generate_salt();
    let h1 = generate_hash("J4#kL9$wQz7!pR2m", &salt);
    let h2 = generate_hash("J4#kL9$wQz7!pR2m", &salt);
    assert_eq!(h1, h2);
}

#[test]
fn verify_hash_accepts_the_password_and_only_it() {
    let salt = generate_salt();
    let hash = generate_hash("J4#kL9$wQz7!pR2m", &salt);
    assert!(verify_hash(&hash, &salt, "J4#kL9$wQz7!pR2m"));
    assert!(!verify_hash(&hash, &salt, "J4#kL9$wQz7!pR2n"));
    assert!(!verify_hash(&hash, &salt, ""));
}

#[test]
fn get_finds_inserted_accounts() {
    let mut db = Database::new();
    db.insert(account("alice", "pw-one", "0711111111", UserRole::StandardUser));
    db.insert(account("bob.2", "pw-two", "0722222222", UserRole::HR));
    let a = db.get("alice").unwrap();
    assert_eq!(a.username(), "alice");
    assert_eq!(a.phone(), "0711111111");
    assert_eq!(a.role(), UserRole::StandardUser);
    let b = db.get("bob.2").unwrap();
    assert_eq!(b.role(), UserRole::HR);
    assert!(db.get("carol").is_none());
}

#[test]
fn lookup_is_case_sensitive() {
    let mut db = Database::new();
    db.insert(account("Alice", "pw", "0711111111", UserRole::StandardUser));
    assert!(db.get("alice").is_none());
    assert!(db.get("Alice").is_some());
}

#[test]
fn insert_is_an_upsert_keyed_by_username() {
    let mut db = Database::new();
    db.insert(account("alice", "pw", "0711111111", UserRole::StandardUser));
    db.insert(account("alice", "pw", "0733333333", UserRole::StandardUser));
    assert_eq!(db.values().len(), 1);
    assert_eq!(db.get("alice").unwrap().phone(), "0733333333");
}

#[test]
fn values_returns_every_account() {
    let mut db = Database::new();
    assert_eq!(db.values().len(), 0);
    db.insert(account("alice", "pw", "0711111111", UserRole::StandardUser));
    db.insert(account("bob", "pw", "0722222222", UserRole::HR));
    let all = db.values();
    assert_eq!(all.len(), 2);
    assert!(all.iter().any(|a| a.username() == "alice"));
    assert!(all.iter().any(|a| a.username() == "bob"));
}

#[test]
fn default_store_holds_the_two_built_in_accounts() {
    let db = Database::default();
    assert_eq!(db.values().len(), 2);
    let u = db.get("default_user").unwrap();
    assert_eq!(u.role(), UserRole::StandardUser);
    assert_eq!(u.phone(), "0784539872");
    assert!(verify_hash(u.hash(), u.salt(), "default_pass"));
    let h = db.get("default_hr").unwrap();
    assert_eq!(h.role(), UserRole::HR);
    assert_eq!(h.phone(), "0793175289");
    assert!(verify_hash(h.hash(), h.salt(), "default_pass"));
}
