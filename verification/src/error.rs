use vstd::prelude::*;

verus! {

/// Why a request was refused.
///
/// Every recoverable failure of an action is reported as exactly one of
/// these. `CredentialMismatch` deliberately covers both an unknown
/// username and a wrong password, so that a client cannot enumerate
/// usernames. `InternalInconsistency` marks the fatal case of an
/// authenticated session whose identity has no backing account.
#[derive(Clone, Copy, Debug, PartialEq, Eq, Structural)]
pub enum ServerError {
    AuthorizationDenied,
    NotLoggedIn,
    InvalidUsername,
    InvalidPassword,
    InvalidPhone,
    TargetNotFound,
    UserAlreadyExists,
    CredentialMismatch,
    InternalInconsistency,
}

impl ServerError {
    /// The reason string sent back to the client.
    pub fn message(&self) -> (r: &'static str)
        ensures
            match self {
                ServerError::AuthorizationDenied => r@ == "You can't do this action"@,
                ServerError::NotLoggedIn => r@ == "You are not logged in"@,
                ServerError::InvalidUsername => r@ == "Invalid username format"@,
                ServerError::InvalidPassword => r@ == "Invalid password format"@,
                ServerError::InvalidPhone => r@ == "Invalid phone format"@,
                ServerError::TargetNotFound => r@ == "Target user not found"@,
                ServerError::UserAlreadyExists => r@ == "User already exists"@,
                ServerError::CredentialMismatch => r@ == "Invalid inputs"@,
                ServerError::InternalInconsistency => r@ == "Internal data inconsistency"@,
            },
    {
        match self {
            ServerError::AuthorizationDenied => "You can't do this action",
            ServerError::NotLoggedIn => "You are not logged in",
            ServerError::InvalidUsername => "Invalid username format",
            ServerError::InvalidPassword => "Invalid password format",
            ServerError::InvalidPhone => "Invalid phone format",
            ServerError::TargetNotFound => "Target user not found",
            ServerError::UserAlreadyExists => "User already exists",
            ServerError::CredentialMismatch => "Invalid inputs",
            ServerError::InternalInconsistency => "Internal data inconsistency",
        }
    }
}

} // verus!
