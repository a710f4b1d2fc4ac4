use vstd::prelude::*;

verus! {

/// The role stored on an account.  The session's effective subject is
/// derived from it at authorization time.
#[derive(Clone, Copy, Debug, PartialEq, Eq, Structural)]
pub enum UserRole {
    StandardUser,
    HR,
}

/// The mathematical content of a stored account.
#[verifier::ext_equal]
pub struct AccountView {
    pub username: Seq<char>,
    pub hash: Seq<u8>,
    pub salt: Seq<u8>,
    pub phone: Seq<char>,
    pub role: UserRole,
}

/// A stored account: the unique username, the Argon2 digest of the
/// password under the stored salt, the salt itself, a phone number, and
/// a role.
pub struct UserAccount {
    username: String,
    hash: Vec<u8>,
    salt: Vec<u8>,
    phone: String,
    role: UserRole,
}

impl View for UserAccount {
    type V = AccountView;

    closed spec fn view(&self) -> AccountView {
        AccountView {
            username: self.username@,
            hash: self.hash@,
            salt: self.salt@,
            phone: self.phone@,
            role: self.role,
        }
    }
}

/// Equality of two string slices, decided through their owned forms.
pub(crate) fn str_eq(a: &str, b: &str) -> (r: bool)
    ensures
        r == (a@ == b@),
{
    let sa = a.to_owned();
    let sb = b.to_owned();
    sa == sb
}

fn clone_bytes(v: &Vec<u8>) -> (r: Vec<u8>)
    ensures
        r@ == v@,
{
    let mut r: Vec<u8> = Vec::new();
    let mut i: usize = 0;
    while i < v.len()
        invariant
            0 <= i <= v@.len(),
            r@ =~= v@.subrange(0, i as int),
        decreases v@.len() - i,
    {
        r.push(v[i]);
        i = i + 1;
    }
    proof {
        assert(r@ =~= v@);
    }
    r
}

impl UserAccount {
    pub fn new(username: String, hash: Vec<u8>, salt: Vec<u8>, phone: String, role: UserRole) -> (r:
        Self)
        ensures
            r@ == (AccountView {
                username: username@,
                hash: hash@,
                salt: salt@,
                phone: phone@,
                role,
            }),
    {
        UserAccount { username, hash, salt, phone, role }
    }

    pub fn username(&self) -> (r: &String)
        ensures
            r@ == self@.username,
    {
        &self.username
    }

    pub fn phone(&self) -> (r: &String)
        ensures
            r@ == self@.phone,
    {
        &self.phone
    }

    pub fn role(&self) -> (r: UserRole)
        ensures
            r == self@.role,
    {
        self.role
    }

    pub fn hash(&self) -> (r: &Vec<u8>)
        ensures
            r@ == self@.hash,
    {
        &self.hash
    }

    pub fn salt(&self) -> (r: &Vec<u8>)
        ensures
            r@ == self@.salt,
    {
        &self.salt
    }

    pub fn set_phone_number(&mut self, phone: String)
        ensures
            final(self)@ == (AccountView { phone: phone@, ..old(self)@ }),
    {
        self.phone = phone;
    }
}

impl Clone for UserAccount {
    /// A clone carries the same account content.
    fn clone(&self) -> (r: Self)
        ensures
            r@ == self@,
    {
        UserAccount {
            username: self.username.clone(),
            hash: clone_bytes(&self.hash),
            salt: clone_bytes(&self.salt),
            phone: self.phone.clone(),
            role: self.role,
        }
    }
}

} // verus!
