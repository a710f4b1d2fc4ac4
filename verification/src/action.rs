use vstd::prelude::*;
use crate::access::{spec_subject, verify_action, AccessControl, AuditEntry, Subject};
use crate::crypto::{generate_hash, generate_salt, hash_of, verify_hash};
use crate::database::Database;
use crate::error::ServerError;
use crate::user::{str_eq, AccountView, UserAccount, UserRole};
use crate::validate_inputs::{
    valid_password_length, valid_phone_spec, valid_username_spec, validate_password,
    validate_phone, validate_username,
};

verus! {

/// The closed set of operations a client may request.  Each variant
/// maps one-to-one to a policy object and to a handler.
#[derive(Clone, Copy, Debug, PartialEq, Eq, Structural)]
pub enum Action {
    ShowUsers,
    ChangeOwnPhone,
    ChangePhone,
    AddUser,
    Login,
    Logout,
    Exit,
}

/// The action a wire tag denotes: each action is reachable both through
/// its human-readable label and through its numeric tag.
pub open spec fn spec_from_tag(s: Seq<char>) -> Option<Action> {
    if s == "Show users"@ || s == "1"@ {
        Some(Action::ShowUsers)
    } else if s == "Change my phone number"@ || s == "2"@ {
        Some(Action::ChangeOwnPhone)
    } else if s == "Show someone's phone number"@ || s == "3"@ {
        Some(Action::ChangePhone)
    } else if s == "Add user"@ || s == "4"@ {
        Some(Action::AddUser)
    } else if s == "Login"@ || s == "5"@ {
        Some(Action::Login)
    } else if s == "Logout"@ || s == "6"@ {
        Some(Action::Logout)
    } else if s == "Exit"@ || s == "7"@ {
        Some(Action::Exit)
    } else {
        None
    }
}

impl Action {
    /// Parses a wire tag, accepting the label and the numeric form
    /// alike; an unparseable tag is a protocol violation and yields
    /// nothing.
    pub fn from_tag(tag: &str) -> (r: Option<Action>)
        ensures
            r == spec_from_tag(tag@),
    {
        if str_eq(tag, "Show users") || str_eq(tag, "1") {
            Some(Action::ShowUsers)
        } else if str_eq(tag, "Change my phone number") || str_eq(tag, "2") {
            Some(Action::ChangeOwnPhone)
        } else if str_eq(tag, "Show someone's phone number") || str_eq(tag, "3") {
            Some(Action::ChangePhone)
        } else if str_eq(tag, "Add user") || str_eq(tag, "4") {
            Some(Action::AddUser)
        } else if str_eq(tag, "Login") || str_eq(tag, "5") {
            Some(Action::Login)
        } else if str_eq(tag, "Logout") || str_eq(tag, "6") {
            Some(Action::Logout)
        } else if str_eq(tag, "Exit") || str_eq(tag, "7") {
            Some(Action::Exit)
        } else {
            None
        }
    }

    /// The human-readable label of the action.
    pub fn label(&self) -> (r: &'static str)
        ensures
            match self {
                Action::ShowUsers => r@ == "Show users"@,
                Action::ChangeOwnPhone => r@ == "Change my phone number"@,
                Action::ChangePhone => r@ == "Show someone's phone number"@,
                Action::AddUser => r@ == "Add user"@,
                Action::Login => r@ == "Login"@,
                Action::Logout => r@ == "Logout"@,
                Action::Exit => r@ == "Exit"@,
            },
    {
        match self {
            Action::ShowUsers => "Show users",
            Action::ChangeOwnPhone => "Change my phone number",
            Action::ChangePhone => "Show someone's phone number",
            Action::AddUser => "Add user",
            Action::Login => "Login",
            Action::Logout => "Logout",
            Action::Exit => "Exit",
        }
    }

    /// The policy object identifier of the action.
    pub fn object_id(&self) -> (r: &'static str)
        ensures
            match self {
                Action::ShowUsers => r@ == "show_users"@,
                Action::ChangeOwnPhone => r@ == "change_own_phone"@,
                Action::ChangePhone => r@ == "change_phone"@,
                Action::AddUser => r@ == "add_user"@,
                Action::Login => r@ == "login"@,
                Action::Logout => r@ == "logout"@,
                Action::Exit => r@ == "exit"@,
            },
    {
        match self {
            Action::ShowUsers => "show_users",
            Action::ChangeOwnPhone => "change_own_phone",
            Action::ChangePhone => "change_phone",
            Action::AddUser => "add_user",
            Action::Login => "login",
            Action::Logout => "logout",
            Action::Exit => "exit",
        }
    }
}

/// The per-connection session: either anonymous or authenticated as
/// one username.  No other state is representable.
pub struct ConnectedUser {
    username: Option<String>,
}

impl View for ConnectedUser {
    type V = Option<Seq<char>>;

    closed spec fn view(&self) -> Option<Seq<char>> {
        match self.username {
            Some(u) => Some(u@),
            None => None,
        }
    }
}

/// The account a session resolves to: the backing account of its
/// identity; failing when the session is anonymous, or — fatally — when
/// an authenticated identity has no backing account.
pub open spec fn account_spec(id: Option<Seq<char>>, db: Database) -> Result<
    AccountView,
    ServerError,
> {
    match id {
        None => Err(ServerError::NotLoggedIn),
        Some(name) => match db.spec_get(name) {
            Some(a) => Ok(a),
            None => Err(ServerError::InternalInconsistency),
        },
    }
}

impl ConnectedUser {
    /// A fresh session, not yet authenticated.
    pub fn anonymous() -> (r: ConnectedUser)
        ensures
            r@ is None,
    {
        ConnectedUser { username: None }
    }

    /// The identity of an authenticated session.
    pub fn username(&self) -> (r: String)
        requires
            self@ is Some,
        ensures
            Some(r@) == self@,
    {
        match &self.username {
            Some(u) => u.clone(),
            None => {
                proof {
                    assert(false);
                }
                String::new()
            },
        }
    }

    /// The identity of the session, failing when it is anonymous.
    pub fn identity(&self) -> (r: Result<String, ServerError>)
        ensures
            match r {
                Ok(name) => self@ == Some(name@),
                Err(e) => self@ is None && e == ServerError::NotLoggedIn,
            },
    {
        match &self.username {
            Some(u) => Ok(u.clone()),
            None => Err(ServerError::NotLoggedIn),
        }
    }

    /// Binds the session to an identity.  Validation is the caller's
    /// duty; this records the outcome of a successful login.
    pub fn set_username(&mut self, username: &str)
        ensures
            final(self)@ == Some(username@),
    {
        self.username = Some(username.to_owned());
    }

    /// Is the session still anonymous?
    pub fn is_anonymous(&self) -> (r: bool)
        ensures
            r == (self@ is None),
    {
        self.username.is_none()
    }

    /// Clears the identity unconditionally.
    pub fn logout(&mut self)
        ensures
            final(self)@ is None,
    {
        self.username = None;
    }

    /// The stored account backing the session's identity.
    pub fn user_account(&self, db: &Database) -> (r: Result<UserAccount, ServerError>)
        requires
            db.wf(),
        ensures
            match r {
                Ok(a) => account_spec(self@, *db) == Ok::<AccountView, ServerError>(a@),
                Err(e) => account_spec(self@, *db) == Err::<AccountView, ServerError>(e),
            },
    {
        match &self.username {
            None => Err(ServerError::NotLoggedIn),
            Some(u) => match db.get(u.as_str()) {
                Some(a) => Ok(a),
                None => Err(ServerError::InternalInconsistency),
            },
        }
    }
}

// ---------------------------------------------------------------------------
// What each action does, as one predicate per action over the states
// before and after it
// ---------------------------------------------------------------------------

/// Do the submitted credentials match a stored account?  They do when
/// the identity is stored and the stored digest equals the digest of the
/// submitted password under the stored salt.
pub open spec fn credentials_match(db: Database, username: Seq<char>, password: Seq<char>) -> bool {
    match db.spec_get(username) {
        Some(a) => a.hash == hash_of(password, a.salt),
        None => false,
    }
}

/// ShowUsers: once authorized, answers with every stored account; a
/// denial is audited and nothing is revealed.
pub open spec fn show_users_post(
    u0: Option<Seq<char>>,
    db: Database,
    ac0: AccessControl,
    r: Result<Vec<UserAccount>, ServerError>,
    ac1: AccessControl,
) -> bool {
    &&& ac1.spec_rules() == ac0.spec_rules()
    &&& match spec_subject(u0, db) {
        None => {
            &&& r == Err::<Vec<UserAccount>, ServerError>(ServerError::InternalInconsistency)
            &&& ac1.spec_audit() == ac0.spec_audit()
        },
        Some(s) => {
            if ac0.allows(s, Action::ShowUsers) {
                &&& ac1.spec_audit() == ac0.spec_audit()
                &&& r is Ok
                &&& r->Ok_0@.len() == db.accounts().len()
                &&& forall|i: int|
                    0 <= i < r->Ok_0@.len() ==> (#[trigger] r->Ok_0@[i])@ == db.accounts()[i]
            } else {
                &&& r == Err::<Vec<UserAccount>, ServerError>(ServerError::AuthorizationDenied)
                &&& ac1.spec_audit() == ac0.spec_audit().push(
                    AuditEntry { subject: s, object: Action::ShowUsers },
                )
            }
        },
    }
}

/// ChangeOwnPhone: once authorized, an authenticated caller with a
/// well-formed phone number has the phone of their own account replaced;
/// every failure leaves the store as it was.
pub open spec fn change_own_phone_post(
    u0: Option<Seq<char>>,
    db0: Database,
    ac0: AccessControl,
    phone: Seq<char>,
    r: Result<(), ServerError>,
    db1: Database,
    ac1: AccessControl,
) -> bool {
    &&& ac1.spec_rules() == ac0.spec_rules()
    &&& match spec_subject(u0, db0) {
        None => {
            &&& r == Err::<(), ServerError>(ServerError::InternalInconsistency)
            &&& db1 == db0
            &&& ac1.spec_audit() == ac0.spec_audit()
        },
        Some(s) => {
            if !ac0.allows(s, Action::ChangeOwnPhone) {
                &&& r == Err::<(), ServerError>(ServerError::AuthorizationDenied)
                &&& db1 == db0
                &&& ac1.spec_audit() == ac0.spec_audit().push(
                    AuditEntry { subject: s, object: Action::ChangeOwnPhone },
                )
            } else {
                &&& ac1.spec_audit() == ac0.spec_audit()
                &&& match u0 {
                    None => r == Err::<(), ServerError>(ServerError::NotLoggedIn) && db1 == db0,
                    Some(name) => {
                        if !valid_phone_spec(phone) {
                            r == Err::<(), ServerError>(ServerError::InvalidPhone) && db1 == db0
                        } else {
                            &&& r == Ok::<(), ServerError>(())
                            &&& db0.spec_get(name) is Some
                            &&& db1.spec_get(name) == Some(
                                (AccountView { phone, ..db0.spec_get(name)->0 }),
                            )
                            &&& forall|m: Seq<char>|
                                m != name ==> db1.spec_get(m) == db0.spec_get(m)
                        }
                    },
                }
            }
        },
    }
}

/// ChangePhone: once authorized, a well-formed target username and phone
/// number replace the phone of the stored target account; every failure
/// leaves the store as it was.
pub open spec fn change_phone_post(
    u0: Option<Seq<char>>,
    db0: Database,
    ac0: AccessControl,
    target: Seq<char>,
    phone: Seq<char>,
    r: Result<(), ServerError>,
    db1: Database,
    ac1: AccessControl,
) -> bool {
    &&& ac1.spec_rules() == ac0.spec_rules()
    &&& match spec_subject(u0, db0) {
        None => {
            &&& r == Err::<(), ServerError>(ServerError::InternalInconsistency)
            &&& db1 == db0
            &&& ac1.spec_audit() == ac0.spec_audit()
        },
        Some(s) => {
            if !ac0.allows(s, Action::ChangePhone) {
                &&& r == Err::<(), ServerError>(ServerError::AuthorizationDenied)
                &&& db1 == db0
                &&& ac1.spec_audit() == ac0.spec_audit().push(
                    AuditEntry { subject: s, object: Action::ChangePhone },
                )
            } else {
                &&& ac1.spec_audit() == ac0.spec_audit()
                &&& if !valid_username_spec(target) {
                    r == Err::<(), ServerError>(ServerError::InvalidUsername) && db1 == db0
                } else if !valid_phone_spec(phone) {
                    r == Err::<(), ServerError>(ServerError::InvalidPhone) && db1 == db0
                } else {
                    match db0.spec_get(target) {
                        None => r == Err::<(), ServerError>(ServerError::TargetNotFound) && db1
                            == db0,
                        Some(a) => {
                            &&& r == Ok::<(), ServerError>(())
                            &&& db1.spec_get(target) == Some((AccountView { phone, ..a }))
                            &&& forall|m: Seq<char>|
                                m != target ==> db1.spec_get(m) == db0.spec_get(m)
                        },
                    }
                }
            }
        },
    }
}

/// AddUser: once authorized, well-formed and fresh credentials create
/// one account, stored with a fresh 32-byte salt and the digest of the
/// password under it; every failure leaves the store as it was.  A
/// password outside the 8-to-64-character bound is always refused; one
/// inside it may still be refused by the fail-closed strength estimator,
/// whose clock-dependent score the library does not model.
pub open spec fn add_user_post(
    u0: Option<Seq<char>>,
    db0: Database,
    ac0: AccessControl,
    username: Seq<char>,
    password: Seq<char>,
    phone: Seq<char>,
    role: UserRole,
    r: Result<(), ServerError>,
    db1: Database,
    ac1: AccessControl,
) -> bool {
    &&& ac1.spec_rules() == ac0.spec_rules()
    &&& match spec_subject(u0, db0) {
        None => {
            &&& r == Err::<(), ServerError>(ServerError::InternalInconsistency)
            &&& db1 == db0
            &&& ac1.spec_audit() == ac0.spec_audit()
        },
        Some(s) => {
            if !ac0.allows(s, Action::AddUser) {
                &&& r == Err::<(), ServerError>(ServerError::AuthorizationDenied)
                &&& db1 == db0
                &&& ac1.spec_audit() == ac0.spec_audit().push(
                    AuditEntry { subject: s, object: Action::AddUser },
                )
            } else {
                &&& ac1.spec_audit() == ac0.spec_audit()
                &&& (!valid_username_spec(username) ==> r == Err::<(), ServerError>(
                    ServerError::InvalidUsername,
                ) && db1 == db0)
                &&& (valid_username_spec(username) ==> {
                    &&& (!valid_password_length(password) ==> r == Err::<(), ServerError>(
                        ServerError::InvalidPassword,
                    ))
                    &&& (r == Err::<(), ServerError>(ServerError::InvalidPassword) ==> db1 == db0)
                    &&& (r != Err::<(), ServerError>(ServerError::InvalidPassword) ==> {
                        if !valid_phone_spec(phone) {
                            r == Err::<(), ServerError>(ServerError::InvalidPhone) && db1 == db0
                        } else if db0.spec_get(username) is Some {
                            r == Err::<(), ServerError>(ServerError::UserAlreadyExists) && db1
                                == db0
                        } else {
                            &&& r == Ok::<(), ServerError>(())
                            &&& db1.spec_get(username) is Some
                            &&& ({
                                let a = db1.spec_get(username)->0;
                                &&& a.username == username
                                &&& a.phone == phone
                                &&& a.role == role
                                &&& a.salt.len() == 32
                                &&& a.hash == hash_of(password, a.salt)
                            })
                            &&& forall|m: Seq<char>|
                                m != username ==> db1.spec_get(m) == db0.spec_get(m)
                        }
                    })
                })
            }
        },
    }
}

/// Login: once authorized, well-formed credentials that match a stored
/// account authenticate the session as that identity; any other outcome
/// leaves the session exactly as it was, and an unknown username and a
/// wrong password are indistinguishable in the reported error.  A
/// password outside the 8-to-64-character bound is always refused; one
/// inside it may still be refused by the fail-closed strength estimator,
/// whose clock-dependent score the library does not model.
pub open spec fn login_post(
    u0: Option<Seq<char>>,
    db: Database,
    ac0: AccessControl,
    username: Seq<char>,
    password: Seq<char>,
    r: Result<(), ServerError>,
    u1: Option<Seq<char>>,
    ac1: AccessControl,
) -> bool {
    &&& ac1.spec_rules() == ac0.spec_rules()
    &&& match spec_subject(u0, db) {
        None => {
            &&& r == Err::<(), ServerError>(ServerError::InternalInconsistency)
            &&& u1 == u0
            &&& ac1.spec_audit() == ac0.spec_audit()
        },
        Some(s) => {
            if !ac0.allows(s, Action::Login) {
                &&& r == Err::<(), ServerError>(ServerError::AuthorizationDenied)
                &&& u1 == u0
                &&& ac1.spec_audit() == ac0.spec_audit().push(
                    AuditEntry { subject: s, object: Action::Login },
                )
            } else {
                &&& ac1.spec_audit() == ac0.spec_audit()
                &&& (!valid_username_spec(username) ==> r == Err::<(), ServerError>(
                    ServerError::InvalidUsername,
                ) && u1 == u0)
                &&& (valid_username_spec(username) ==> {
                    &&& (!valid_password_length(password) ==> r == Err::<(), ServerError>(
                        ServerError::InvalidPassword,
                    ))
                    &&& (r == Err::<(), ServerError>(ServerError::InvalidPassword) ==> u1 == u0)
                    &&& (r != Err::<(), ServerError>(ServerError::InvalidPassword) ==> {
                        if credentials_match(db, username, password) {
                            r == Ok::<(), ServerError>(()) && u1 == Some(username)
                        } else {
                            r == Err::<(), ServerError>(ServerError::CredentialMismatch) && u1
                                == u0
                        }
                    })
                })
            }
        },
    }
}

/// Logout: once authorized, the session becomes anonymous; a denial
/// leaves it as it was.
pub open spec fn logout_post(
    u0: Option<Seq<char>>,
    db: Database,
    ac0: AccessControl,
    r: Result<(), ServerError>,
    u1: Option<Seq<char>>,
    ac1: AccessControl,
) -> bool {
    &&& ac1.spec_rules() == ac0.spec_rules()
    &&& match spec_subject(u0, db) {
        None => {
            &&& r == Err::<(), ServerError>(ServerError::InternalInconsistency)
            &&& u1 == u0
            &&& ac1.spec_audit() == ac0.spec_audit()
        },
        Some(s) => {
            if ac0.allows(s, Action::Logout) {
                &&& r == Ok::<(), ServerError>(())
                &&& u1 is None
                &&& ac1.spec_audit() == ac0.spec_audit()
            } else {
                &&& r == Err::<(), ServerError>(ServerError::AuthorizationDenied)
                &&& u1 == u0
                &&& ac1.spec_audit() == ac0.spec_audit().push(
                    AuditEntry { subject: s, object: Action::Logout },
                )
            }
        },
    }
}

/// Exit: the request to close the connection passes through the same
/// enforcement point as every other action.
pub open spec fn exit_post(
    u0: Option<Seq<char>>,
    db: Database,
    ac0: AccessControl,
    r: Result<(), ServerError>,
    ac1: AccessControl,
) -> bool {
    &&& ac1.spec_rules() == ac0.spec_rules()
    &&& match spec_subject(u0, db) {
        None => {
            &&& r == Err::<(), ServerError>(ServerError::InternalInconsistency)
            &&& ac1.spec_audit() == ac0.spec_audit()
        },
        Some(s) => {
            if ac0.allows(s, Action::Exit) {
                &&& r == Ok::<(), ServerError>(())
                &&& ac1.spec_audit() == ac0.spec_audit()
            } else {
                &&& r == Err::<(), ServerError>(ServerError::AuthorizationDenied)
                &&& ac1.spec_audit() == ac0.spec_audit().push(
                    AuditEntry { subject: s, object: Action::Exit },
                )
            }
        },
    }
}

// ---------------------------------------------------------------------------
// The dispatch cycle: payloads in, one response out
// ---------------------------------------------------------------------------

/// The payload fields a request carries, read off the wire — in the
/// declared order — before authorization or validation runs.
pub enum Payload {
    Empty,
    Phone(String),
    TargetPhone(String, String),
    NewUser(String, String, String, UserRole),
    Credentials(String, String),
}

/// The payload shape each action declares.
pub open spec fn payload_matches(action: Action, payload: Payload) -> bool {
    match action {
        Action::ShowUsers => payload is Empty,
        Action::ChangeOwnPhone => payload is Phone,
        Action::ChangePhone => payload is TargetPhone,
        Action::AddUser => payload is NewUser,
        Action::Login => payload is Credentials,
        Action::Logout => payload is Empty,
        Action::Exit => payload is Empty,
    }
}

/// The success payload of one dispatch cycle.
pub enum Response {
    Done,
    Users(Vec<UserAccount>),
    Exit,
}

impl Action {
    /// Answers with every stored account.
    pub fn show_users(u: &ConnectedUser, db: &Database, ac: &mut AccessControl) -> (r: Result<
        Vec<UserAccount>,
        ServerError,
    >)
        requires
            db.wf(),
        ensures
            show_users_post(u@, *db, *old(ac), r, *final(ac)),
    {
        match verify_action(u, db, ac, &Action::ShowUsers) {
            Ok(true) => Ok(db.values()),
            Ok(false) => Err(ServerError::AuthorizationDenied),
            Err(e) => Err(e),
        }
    }

    /// Replaces the phone number of the caller's own account.
    pub fn change_own_phone(
        u: &ConnectedUser,
        db: &mut Database,
        ac: &mut AccessControl,
        phone: &str,
    ) -> (r: Result<(), ServerError>)
        requires
            old(db).wf(),
        ensures
            final(db).wf(),
            change_own_phone_post(u@, *old(db), *old(ac), phone@, r, *final(db), *final(ac)),
    {
        match verify_action(u, db, ac, &Action::ChangeOwnPhone) {
            Ok(true) => {
                if u.is_anonymous() {
                    Err(ServerError::NotLoggedIn)
                } else if !validate_phone(phone) {
                    Err(ServerError::InvalidPhone)
                } else {
                    match u.user_account(db) {
                        Ok(mut account) => {
                            proof {
                                Database::lemma_get_names(*db, u@->0);
                                Database::lemma_get_salt_len(*db, u@->0);
                            }
                            account.set_phone_number(phone.to_owned());
                            db.insert(account);
                            Ok(())
                        },
                        Err(e) => Err(e),
                    }
                }
            },
            Ok(false) => Err(ServerError::AuthorizationDenied),
            Err(e) => Err(e),
        }
    }

    /// Replaces the phone number of the target account.
    pub fn change_phone(
        u: &ConnectedUser,
        db: &mut Database,
        ac: &mut AccessControl,
        username: &str,
        phone: &str,
    ) -> (r: Result<(), ServerError>)
        requires
            old(db).wf(),
        ensures
            final(db).wf(),
            change_phone_post(u@, *old(db), *old(ac), username@, phone@, r, *final(db), *final(ac)),
    {
        match verify_action(u, db, ac, &Action::ChangePhone) {
            Ok(true) => {
                if !validate_username(username) {
                    Err(ServerError::InvalidUsername)
                } else if !validate_phone(phone) {
                    Err(ServerError::InvalidPhone)
                } else {
                    match db.get(username) {
                        None => Err(ServerError::TargetNotFound),
                        Some(mut target) => {
                            proof {
                                Database::lemma_get_names(*db, username@);
                                Database::lemma_get_salt_len(*db, username@);
                            }
                            target.set_phone_number(phone.to_owned());
                            db.insert(target);
                            Ok(())
                        },
                    }
                }
            },
            Ok(false) => Err(ServerError::AuthorizationDenied),
            Err(e) => Err(e),
        }
    }

    /// Creates a fresh account from validated inputs, salting and
    /// hashing the password.
    pub fn add_user(
        u: &ConnectedUser,
        db: &mut Database,
        ac: &mut AccessControl,
        username: &str,
        password: &str,
        phone: &str,
        role: UserRole,
    ) -> (r: Result<(), ServerError>)
        requires
            old(db).wf(),
        ensures
            final(db).wf(),
            add_user_post(
                u@,
                *old(db),
                *old(ac),
                username@,
                password@,
                phone@,
                role,
                r,
                *final(db),
                *final(ac),
            ),
    {
        match verify_action(u, db, ac, &Action::AddUser) {
            Ok(true) => {
                if !validate_username(username) {
                    Err(ServerError::InvalidUsername)
                } else if !validate_password(password) {
                    Err(ServerError::InvalidPassword)
                } else if !validate_phone(phone) {
                    Err(ServerError::InvalidPhone)
                } else {
                    match db.get(username) {
                        Some(_) => Err(ServerError::UserAlreadyExists),
                        None => {
                            let salt = generate_salt();
                            let hash = generate_hash(password, &salt);
                            let account = UserAccount::new(
                                username.to_owned(),
                                hash,
                                salt,
                                phone.to_owned(),
                                role,
                            );
                            db.insert(account);
                            Ok(())
                        },
                    }
                }
            },
            Ok(false) => Err(ServerError::AuthorizationDenied),
            Err(e) => Err(e),
        }
    }

    /// Authenticates the session against stored credentials.
    pub fn login(
        u: &mut ConnectedUser,
        db: &Database,
        ac: &mut AccessControl,
        username: &str,
        password: &str,
    ) -> (r: Result<(), ServerError>)
        requires
            db.wf(),
        ensures
            login_post(old(u)@, *db, *old(ac), username@, password@, r, final(u)@, *final(ac)),
    {
        match verify_action(u, db, ac, &Action::Login) {
            Ok(true) => {
                if !validate_username(username) {
                    Err(ServerError::InvalidUsername)
                } else if !validate_password(password) {
                    Err(ServerError::InvalidPassword)
                } else {
                    match db.get(username) {
                        Some(account) => {
                            proof {
                                Database::lemma_get_salt_len(*db, username@);
                            }
                            if verify_hash(account.hash(), account.salt(), password) {
                                u.set_username(username);
                                Ok(())
                            } else {
                                Err(ServerError::CredentialMismatch)
                            }
                        },
                        None => Err(ServerError::CredentialMismatch),
                    }
                }
            },
            Ok(false) => Err(ServerError::AuthorizationDenied),
            Err(e) => Err(e),
        }
    }

    /// Returns the session to the anonymous state.
    pub fn logout(u: &mut ConnectedUser, db: &Database, ac: &mut AccessControl) -> (r: Result<
        (),
        ServerError,
    >)
        requires
            db.wf(),
        ensures
            logout_post(old(u)@, *db, *old(ac), r, final(u)@, *final(ac)),
    {
        match verify_action(u, db, ac, &Action::Logout) {
            Ok(true) => {
                u.logout();
                Ok(())
            },
            Ok(false) => Err(ServerError::AuthorizationDenied),
            Err(e) => Err(e),
        }
    }

    /// One dispatch cycle after the tag and its declared payload have
    /// been read: authorize, validate, mutate, and produce exactly one
    /// result.
    pub fn perform(
        &self,
        u: &mut ConnectedUser,
        db: &mut Database,
        ac: &mut AccessControl,
        payload: Payload,
    ) -> (r: Result<Response, ServerError>)
        requires
            payload_matches(*self, payload),
            old(db).wf(),
        ensures
            final(db).wf(),
            match *self {
                Action::ShowUsers => {
                    &&& *final(u) == *old(u)
                    &&& *final(db) == *old(db)
                    &&& match r {
                        Ok(resp) => resp is Users && show_users_post(
                            old(u)@,
                            *old(db),
                            *old(ac),
                            Ok(resp->Users_0),
                            *final(ac),
                        ),
                        Err(e) => show_users_post(
                            old(u)@,
                            *old(db),
                            *old(ac),
                            Err(e),
                            *final(ac),
                        ),
                    }
                },
                Action::ChangeOwnPhone => {
                    &&& *final(u) == *old(u)
                    &&& match r {
                        Ok(resp) => resp is Done && change_own_phone_post(
                            old(u)@,
                            *old(db),
                            *old(ac),
                            payload->Phone_0@,
                            Ok(()),
                            *final(db),
                            *final(ac),
                        ),
                        Err(e) => change_own_phone_post(
                            old(u)@,
                            *old(db),
                            *old(ac),
                            payload->Phone_0@,
                            Err(e),
                            *final(db),
                            *final(ac),
                        ),
                    }
                },
                Action::ChangePhone => {
                    &&& *final(u) == *old(u)
                    &&& match r {
                        Ok(resp) => resp is Done && change_phone_post(
                            old(u)@,
                            *old(db),
                            *old(ac),
                            payload->TargetPhone_0@,
                            payload->TargetPhone_1@,
                            Ok(()),
                            *final(db),
                            *final(ac),
                        ),
                        Err(e) => change_phone_post(
                            old(u)@,
                            *old(db),
                            *old(ac),
                            payload->TargetPhone_0@,
                            payload->TargetPhone_1@,
                            Err(e),
                            *final(db),
                            *final(ac),
                        ),
                    }
                },
                Action::AddUser => {
                    &&& *final(u) == *old(u)
                    &&& match r {
                        Ok(resp) => resp is Done && add_user_post(
                            old(u)@,
                            *old(db),
                            *old(ac),
                            payload->NewUser_0@,
                            payload->NewUser_1@,
                            payload->NewUser_2@,
                            payload->NewUser_3,
                            Ok(()),
                            *final(db),
                            *final(ac),
                        ),
                        Err(e) => add_user_post(
                            old(u)@,
                            *old(db),
                            *old(ac),
                            payload->NewUser_0@,
                            payload->NewUser_1@,
                            payload->NewUser_2@,
                            payload->NewUser_3,
                            Err(e),
                            *final(db),
                            *final(ac),
                        ),
                    }
                },
                Action::Login => {
                    &&& *final(db) == *old(db)
                    &&& match r {
                        Ok(resp) => resp is Done && login_post(
                            old(u)@,
                            *old(db),
                            *old(ac),
                            payload->Credentials_0@,
                            payload->Credentials_1@,
                            Ok(()),
                            final(u)@,
                            *final(ac),
                        ),
                        Err(e) => login_post(
                            old(u)@,
                            *old(db),
                            *old(ac),
                            payload->Credentials_0@,
                            payload->Credentials_1@,
                            Err(e),
                            final(u)@,
                            *final(ac),
                        ),
                    }
                },
                Action::Logout => {
                    &&& *final(db) == *old(db)
                    &&& match r {
                        Ok(resp) => resp is Done && logout_post(
                            old(u)@,
                            *old(db),
                            *old(ac),
                            Ok(()),
                            final(u)@,
                            *final(ac),
                        ),
                        Err(e) => logout_post(
                            old(u)@,
                            *old(db),
                            *old(ac),
                            Err(e),
                            final(u)@,
                            *final(ac),
                        ),
                    }
                },
                Action::Exit => {
                    &&& *final(u) == *old(u)
                    &&& *final(db) == *old(db)
                    &&& match r {
                        Ok(resp) => resp is Exit && exit_post(
                            old(u)@,
                            *old(db),
                            *old(ac),
                            Ok(()),
                            *final(ac),
                        ),
                        Err(e) => exit_post(old(u)@, *old(db), *old(ac), Err(e), *final(ac)),
                    }
                },
            },
    {
        match self {
            Action::ShowUsers => {
                match Action::show_users(u, db, ac) {
                    Ok(users) => Ok(Response::Users(users)),
                    Err(e) => Err(e),
                }
            },
            Action::ChangeOwnPhone => {
                match payload {
                    Payload::Phone(phone) => {
                        match Action::change_own_phone(u, db, ac, phone.as_str()) {
                            Ok(()) => Ok(Response::Done),
                            Err(e) => Err(e),
                        }
                    },
                    _ => {
                        proof {
                            assert(false);
                        }
                        Err(ServerError::InternalInconsistency)
                    },
                }
            },
            Action::ChangePhone => {
                match payload {
                    Payload::TargetPhone(username, phone) => {
                        match Action::change_phone(u, db, ac, username.as_str(), phone.as_str()) {
                            Ok(()) => Ok(Response::Done),
                            Err(e) => Err(e),
                        }
                    },
                    _ => {
                        proof {
                            assert(false);
                        }
                        Err(ServerError::InternalInconsistency)
                    },
                }
            },
            Action::AddUser => {
                match payload {
                    Payload::NewUser(username, password, phone, role) => {
                        match Action::add_user(
                            u,
                            db,
                            ac,
                            username.as_str(),
                            password.as_str(),
                            phone.as_str(),
                            role,
                        ) {
                            Ok(()) => Ok(Response::Done),
                            Err(e) => Err(e),
                        }
                    },
                    _ => {
                        proof {
                            assert(false);
                        }
                        Err(ServerError::InternalInconsistency)
                    },
                }
            },
            Action::Login => {
                match payload {
                    Payload::Credentials(username, password) => {
                        match Action::login(u, db, ac, username.as_str(), password.as_str()) {
                            Ok(()) => Ok(Response::Done),
                            Err(e) => Err(e),
                        }
                    },
                    _ => {
                        proof {
                            assert(false);
                        }
                        Err(ServerError::InternalInconsistency)
                    },
                }
            },
            Action::Logout => {
                match Action::logout(u, db, ac) {
                    Ok(()) => Ok(Response::Done),
                    Err(e) => Err(e),
                }
            },
            Action::Exit => {
                match verify_action(u, db, ac, &Action::Exit) {
                    Ok(true) => Ok(Response::Exit),
                    Ok(false) => Err(ServerError::AuthorizationDenied),
                    Err(e) => Err(e),
                }
            },
        }
    }
}

// ---------------------------------------------------------------------------
// Laws relating the actions
// ---------------------------------------------------------------------------

/// Law: an authenticated session whose identity is stored resolves to
/// exactly that stored record — so the account lookup right after a
/// successful login returns the record of the identity that logged in.
pub proof fn lemma_login_then_account(db: Database, name: Seq<char>)
    requires
        db.spec_get(name) is Some,
    ensures
        account_spec(Some(name), db) == Ok::<AccountView, ServerError>(db.spec_get(name)->0),
{
}

/// Law: a stored account whose digest was made from a password under the
/// account's own salt matches those credentials — so creating a user and
/// then logging in with the same username and password succeeds.
pub proof fn lemma_signup_then_login(db: Database, username: Seq<char>, password: Seq<char>)
    requires
        db.spec_get(username) is Some,
        db.spec_get(username)->0.hash == hash_of(password, db.spec_get(username)->0.salt),
    ensures
        credentials_match(db, username, password),
{
}

/// Law: any login that does not succeed leaves the session exactly as it
/// was — repeated failed logins never authenticate.
pub proof fn lemma_failed_login_keeps_session(
    u0: Option<Seq<char>>,
    db: Database,
    ac0: AccessControl,
    username: Seq<char>,
    password: Seq<char>,
    r: Result<(), ServerError>,
    u1: Option<Seq<char>>,
    ac1: AccessControl,
)
    requires
        login_post(u0, db, ac0, username, password, r, u1, ac1),
        r != Ok::<(), ServerError>(()),
    ensures
        u1 == u0,
{
}

/// Law: creating a user under a username that is already stored alters
/// nothing and never succeeds.
pub proof fn lemma_add_existing_preserves_store(
    u0: Option<Seq<char>>,
    db0: Database,
    ac0: AccessControl,
    username: Seq<char>,
    password: Seq<char>,
    phone: Seq<char>,
    role: UserRole,
    r: Result<(), ServerError>,
    db1: Database,
    ac1: AccessControl,
)
    requires
        add_user_post(u0, db0, ac0, username, password, phone, role, r, db1, ac1),
        db0.spec_get(username) is Some,
    ensures
        db1 == db0,
        r != Ok::<(), ServerError>(()),
{
}

/// Law: an anonymous session that the policy does not allow to change
/// its own phone is refused with a denial, the store is untouched, and
/// the denial is audited.
pub proof fn lemma_denied_change_keeps_store(
    u0: Option<Seq<char>>,
    db0: Database,
    ac0: AccessControl,
    phone: Seq<char>,
    r: Result<(), ServerError>,
    db1: Database,
    ac1: AccessControl,
)
    requires
        change_own_phone_post(u0, db0, ac0, phone, r, db1, ac1),
        u0 is None,
        !ac0.allows(Subject::Anonymous, Action::ChangeOwnPhone),
    ensures
        r == Err::<(), ServerError>(ServerError::AuthorizationDenied),
        db1 == db0,
        ac1.spec_audit() == ac0.spec_audit().push(
            AuditEntry { subject: Subject::Anonymous, object: Action::ChangeOwnPhone },
        ),
{
}

} // verus!
