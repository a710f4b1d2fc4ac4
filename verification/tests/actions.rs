use auth_server::access::{default_policy, AccessControl, PolicyRule, Subject};
use auth_server::action::{Action, ConnectedUser, Payload, Response};
use auth_server::crypto::{generate_hash, generate_salt};
use auth_server::database::Database;
use auth_server::error::ServerError;
use auth_server::user::{UserAccount, UserRole};

const STRONG: &str = "J4#kL9$wQz7!pR2m";
const OTHER_STRONG: &str = "Zq6!rT8@uV3$yW5n";

fn seeded(username: &str, password: &str, phone: &str, role: UserRole) -> Database {
    let mut db = Database::new();
    let salt = generate_salt();
    let hash = generate_hash(password, &salt);
    db.insert(UserAccount::new(username.to_string(), hash, salt, phone.to_string(), role));
    db
}

fn session_as(username: &str) -> ConnectedUser {
    let mut u = ConnectedUser::anonymous();
    u.set_username(username);
    u
}

#[test]
fn login_authenticates_and_account_follows() {
    let db = seeded("alice", STRONG, "0711111111", UserRole::StandardUser);
    let mut ac = default_policy();
    let mut u = ConnectedUser::anonymous();
    assert!(u.is_anonymous());
    let r = Action::login(&mut u, &db, &mut ac, "alice", STRONG);
    assert_eq!(r, Ok(()));
    assert!(!u.is_anonymous());
    assert_eq!(u.username(), "alice");
    let account = u.user_account(&db).unwrap();
    assert_eq!(account.username(), "alice");
    assert_eq!(account.phone(), "0711111111");
}

#[test]
fn login_with_wrong_password_is_a_mismatch() {
    let db = seeded("alice", STRONG, "0711111111", UserRole::StandardUser);
    let mut ac = default_policy();
    let mut u = ConnectedUser::anonymous();
    let r = Action::login(&mut u, &db, &mut ac, "alice", OTHER_STRONG);
    assert_eq!(r, Err(ServerError::CredentialMismatch));
    assert!(u.is_anonymous());
    // Repeated failed logins never authenticate.
    let r2 = Action::login(&mut u, &db, &mut ac, "alice", OTHER_STRONG);
    assert_eq!(r2, Err(ServerError::CredentialMismatch));
    assert!(u.is_anonymous());
}

#[test]
fn login_with_unknown_username_is_the_same_mismatch() {
    let db = seeded("alice", STRONG, "0711111111", UserRole::StandardUser);
    let mut ac = default_policy();
    let mut u = ConnectedUser::anonymous();
    let r = Action::login(&mut u, &db, &mut ac, "nobody", STRONG);
    assert_eq!(r, Err(ServerError::CredentialMismatch));
    assert!(u.is_anonymous());
}

#[test]
fn login_validates_formats_first() {
    let db = seeded("alice", STRONG, "0711111111", UserRole::StandardUser);
    let mut ac = default_policy();
    let mut u = ConnectedUser::anonymous();
    assert_eq!(Action::login(&mut u, &db, &mut ac, "ab", STRONG), Err(ServerError::InvalidUsername));
    assert_eq!(Action::login(&mut u, &db, &mut ac, "alice", "weak"), Err(ServerError::InvalidPassword));
    assert!(u.is_anonymous());
}

#[test]
fn add_user_then_login_round_trip() {
    let mut db = seeded("hr.boss", STRONG, "0799999999", UserRole::HR);
    let mut ac = default_policy();
    let hr = session_as("hr.boss");
    let r = Action::add_user(&hr, &mut db, &mut ac, "carol", OTHER_STRONG, "0712345678", UserRole::StandardUser);
    assert_eq!(r, Ok(()));
    let mut u = ConnectedUser::anonymous();
    let login = Action::login(&mut u, &db, &mut ac, "carol", OTHER_STRONG);
    assert_eq!(login, Ok(()));
    assert_eq!(u.username(), "carol");
}

#[test]
fn add_existing_user_is_a_conflict_and_changes_nothing() {
    let mut db = seeded("hr.boss", STRONG, "0799999999", UserRole::HR);
    let mut ac = default_policy();
    let hr = session_as("hr.boss");
    assert_eq!(
        Action::add_user(&hr, &mut db, &mut ac, "carol", OTHER_STRONG, "0712345678", UserRole::StandardUser),
        Ok(())
    );
    let before = db.get("carol").unwrap();
    let r = Action::add_user(&hr, &mut db, &mut ac, "carol", STRONG, "0788888888", UserRole::HR);
    assert_eq!(r, Err(ServerError::UserAlreadyExists));
    let after = db.get("carol").unwrap();
    assert_eq!(after.phone(), before.phone());
    assert_eq!(after.role(), before.role());
    assert_eq!(after.hash(), before.hash());
    assert_eq!(db.values().len(), 2);
}

#[test]
fn add_user_validates_inputs_in_order() {
    let mut db = seeded("hr.boss", STRONG, "0799999999", UserRole::HR);
    let mut ac = default_policy();
    let hr = session_as("hr.boss");
    assert_eq!(
        Action::add_user(&hr, &mut db, &mut ac, "ab", STRONG, "0712345678", UserRole::StandardUser),
        Err(ServerError::InvalidUsername)
    );
    assert_eq!(
        Action::add_user(&hr, &mut db, &mut ac, "carol", "password", "0712345678", UserRole::StandardUser),
        Err(ServerError::InvalidPassword)
    );
    assert_eq!(
        Action::add_user(&hr, &mut db, &mut ac, "carol", STRONG, "712345678", UserRole::StandardUser),
        Err(ServerError::InvalidPhone)
    );
    assert!(db.get("carol").is_none());
}

#[test]
fn anonymous_change_own_phone_is_denied_and_audited() {
    let mut db = seeded("alice", STRONG, "0711111111", UserRole::StandardUser);
    let mut ac = default_policy();
    let anon = ConnectedUser::anonymous();
    let r = Action::change_own_phone(&anon, &mut db, &mut ac, "0722222222");
    assert_eq!(r, Err(ServerError::AuthorizationDenied));
    assert_eq!(db.get("alice").unwrap().phone(), "0711111111");
    assert_eq!(ac.audit().len(), 1);
    assert_eq!(ac.audit()[0].subject, Subject::Anonymous);
    assert_eq!(ac.audit()[0].object, Action::ChangeOwnPhone);
}

#[test]
fn standard_user_changes_own_phone() {
    let mut db = seeded("alice", STRONG, "0711111111", UserRole::StandardUser);
    let mut ac = default_policy();
    let u = session_as("alice");
    let r = Action::change_own_phone(&u, &mut db, &mut ac, "0722222222");
    assert_eq!(r, Ok(()));
    assert_eq!(db.get("alice").unwrap().phone(), "0722222222");
}

#[test]
fn change_own_phone_rejects_bad_format() {
    let mut db = seeded("alice", STRONG, "0711111111", UserRole::StandardUser);
    let mut ac = default_policy();
    let u = session_as("alice");
    let r = Action::change_own_phone(&u, &mut db, &mut ac, "123");
    assert_eq!(r, Err(ServerError::InvalidPhone));
    assert_eq!(db.get("alice").unwrap().phone(), "0711111111");
}

#[test]
fn change_own_phone_needs_a_login_when_policy_lets_anonymous_through() {
    let mut db = Database::new();
    let rules = vec![PolicyRule { subject: Subject::Anonymous, object: Action::ChangeOwnPhone }];
    let mut ac = AccessControl::new(rules);
    let anon = ConnectedUser::anonymous();
    let r = Action::change_own_phone(&anon, &mut db, &mut ac, "0722222222");
    assert_eq!(r, Err(ServerError::NotLoggedIn));
}

#[test]
fn hr_changes_someone_elses_phone() {
    let mut db = seeded("hr.boss", STRONG, "0799999999", UserRole::HR);
    let salt = generate_salt();
    let hash = generate_hash(STRONG, &salt);
    db.insert(UserAccount::new("alice".to_string(), hash, salt, "0711111111".to_string(), UserRole::StandardUser));
    let mut ac = default_policy();
    let hr = session_as("hr.boss");
    let r = Action::change_phone(&hr, &mut db, &mut ac, "alice", "0733333333");
    assert_eq!(r, Ok(()));
    assert_eq!(db.get("alice").unwrap().phone(), "0733333333");
    assert_eq!(db.get("hr.boss").unwrap().phone(), "0799999999");
}

#[test]
fn change_phone_reports_missing_target() {
    let mut db = seeded("hr.boss", STRONG, "0799999999", UserRole::HR);
    let mut ac = default_policy();
    let hr = session_as("hr.boss");
    let r = Action::change_phone(&hr, &mut db, &mut ac, "ghost", "0733333333");
    assert_eq!(r, Err(ServerError::TargetNotFound));
}

#[test]
fn standard_change_phone_is_denied_before_any_validation() {
    // The payload is invalid in both fields; the denial must still come
    // first, because authorization precedes validation.
    let mut db = seeded("alice", STRONG, "0711111111", UserRole::StandardUser);
    let mut ac = default_policy();
    let mut u = session_as("alice");
    let payload = Payload::TargetPhone("x".to_string(), "123".to_string());
    let r = Action::ChangePhone.perform(&mut u, &mut db, &mut ac, payload);
    assert!(matches!(r, Err(ServerError::AuthorizationDenied)));
    assert_eq!(ac.audit().len(), 1);
    assert_eq!(ac.audit()[0].subject, Subject::Standard);
    assert_eq!(ac.audit()[0].object, Action::ChangePhone);
}

#[test]
fn show_users_lists_accounts_for_hr_only() {
    let mut db = seeded("hr.boss", STRONG, "0799999999", UserRole::HR);
    let salt = generate_salt();
    let hash = generate_hash(STRONG, &salt);
    db.insert(UserAccount::new("alice".to_string(), hash, salt, "0711111111".to_string(), UserRole::StandardUser));
    let mut ac = default_policy();
    let hr = session_as("hr.boss");
    let users = Action::show_users(&hr, &db, &mut ac).unwrap();
    assert_eq!(users.len(), 2);
    let alice = session_as("alice");
    assert!(matches!(
        Action::show_users(&alice, &db, &mut ac),
        Err(ServerError::AuthorizationDenied)
    ));
}

#[test]
fn logout_returns_the_session_to_anonymous() {
    let db = seeded("alice", STRONG, "0711111111", UserRole::StandardUser);
    let mut ac = default_policy();
    let mut u = session_as("alice");
    let r = Action::logout(&mut u, &db, &mut ac);
    assert_eq!(r, Ok(()));
    assert!(u.is_anonymous());
}

#[test]
fn anonymous_logout_is_denied() {
    let db = Database::new();
    let mut ac = default_policy();
    let mut u = ConnectedUser::anonymous();
    let r = Action::logout(&mut u, &db, &mut ac);
    assert_eq!(r, Err(ServerError::AuthorizationDenied));
}

#[test]
fn ghost_identity_is_an_internal_inconsistency() {
    let mut db = seeded("alice", STRONG, "0711111111", UserRole::StandardUser);
    let mut ac = default_policy();
    let ghost_session = session_as("ghost.user");
    let r = Action::show_users(&ghost_session, &db, &mut ac);
    assert!(matches!(r, Err(ServerError::InternalInconsistency)));
    let r2 = Action::change_own_phone(&ghost_session, &mut db, &mut ac, "0722222222");
    assert_eq!(r2, Err(ServerError::InternalInconsistency));
}

#[test]
fn perform_runs_a_whole_cycle() {
    let mut db = seeded("hr.boss", STRONG, "0799999999", UserRole::HR);
    let mut ac = default_policy();
    let mut u = session_as("hr.boss");
    let add = Payload::NewUser(
        "carol".to_string(),
        OTHER_STRONG.to_string(),
        "0712345678".to_string(),
        UserRole::StandardUser,
    );
    assert!(matches!(Action::AddUser.perform(&mut u, &mut db, &mut ac, add), Ok(Response::Done)));
    match Action::ShowUsers.perform(&mut u, &mut db, &mut ac, Payload::Empty) {
        Ok(Response::Users(users)) => assert_eq!(users.len(), 2),
        _ => panic!("expected the user listing"),
    }
    assert!(matches!(
        Action::Logout.perform(&mut u, &mut db, &mut ac, Payload::Empty),
        Ok(Response::Done)
    ));
    assert!(u.is_anonymous());
    let login = Payload::Credentials("carol".to_string(), OTHER_STRONG.to_string());
    assert!(matches!(Action::Login.perform(&mut u, &mut db, &mut ac, login), Ok(Response::Done)));
    assert_eq!(u.username(), "carol");
    assert!(matches!(
        Action::Exit.perform(&mut u, &mut db, &mut ac, Payload::Empty),
        Ok(Response::Exit)
    ));
}

#[test]
fn anonymous_exit_is_allowed() {
    let mut db = Database::new();
    let mut ac = default_policy();
    let mut u = ConnectedUser::anonymous();
    assert!(matches!(
        Action::Exit.perform(&mut u, &mut db, &mut ac, Payload::Empty),
        Ok(Response::Exit)
    ));
}

#[test]
fn denied_add_user_with_valid_payload_changes_nothing() {
    let mut db = seeded("alice", STRONG, "0711111111", UserRole::StandardUser);
    let mut ac = default_policy();
    let mut u = session_as("alice");
    let payload = Payload::NewUser(
        "carol".to_string(),
        OTHER_STRONG.to_string(),
        "0712345678".to_string(),
        UserRole::StandardUser,
    );
    let r = Action::AddUser.perform(&mut u, &mut db, &mut ac, payload);
    assert!(matches!(r, Err(ServerError::AuthorizationDenied)));
    assert!(db.get("carol").is_none());
    assert_eq!(db.values().len(), 1);
}

#[test]
fn anonymous_session_has_no_account() {
    let db = seeded("alice", STRONG, "0711111111", UserRole::StandardUser);
    let u = ConnectedUser::anonymous();
    assert!(matches!(u.user_account(&db), Err(ServerError::NotLoggedIn)));
}

#[test]
fn identity_follows_the_session_state() {
    let mut u = ConnectedUser::anonymous();
    assert_eq!(u.identity(), Err(ServerError::NotLoggedIn));
    u.set_username("alice");
    assert_eq!(u.identity(), Ok("alice".to_string()));
    u.logout();
    assert_eq!(u.identity(), Err(ServerError::NotLoggedIn));
}

#[test]
fn error_messages_match_the_protocol() {
    assert_eq!(ServerError::AuthorizationDenied.message(), "You can't do this action");
    assert_eq!(ServerError::InvalidUsername.message(), "Invalid username format");
    assert_eq!(ServerError::InvalidPassword.message(), "Invalid password format");
    assert_eq!(ServerError::InvalidPhone.message(), "Invalid phone format");
    assert_eq!(ServerError::TargetNotFound.message(), "Target user not found");
    assert_eq!(ServerError::UserAlreadyExists.message(), "User already exists");
    assert_eq!(ServerError::CredentialMismatch.message(), "Invalid inputs");
}
