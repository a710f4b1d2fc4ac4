use vstd::prelude::*;
use vstd::pervasive::VecAdditionalExecFns;
use crate::crypto::{generate_hash, generate_salt, hash_of};
use crate::user::{str_eq, AccountView, UserAccount, UserRole};

verus! {

/// The in-memory user store: accounts keyed by their username.
///
/// The store is handed explicitly to whoever needs it; durability is a
/// caller's concern.  Its invariant is that usernames are pairwise
/// distinct, so a username denotes at most one account.
pub struct Database {
    users: Vec<UserAccount>,
}

impl Database {
    /// Usernames are pairwise distinct, and every stored salt is one the
    /// library generates: 32 bytes.
    pub closed spec fn wf(self) -> bool {
        &&& forall|i: int, j: int|
            0 <= i < j < self.users@.len() ==> self.users@[i]@.username != self.users@[j]@.username
        &&& forall|i: int| 0 <= i < self.users@.len() ==> (#[trigger] self.users@[i])@.salt.len() == 32
    }

    /// Is some account stored under this username?
    pub closed spec fn contains_name(self, name: Seq<char>) -> bool {
        exists|i: int| 0 <= i < self.users@.len() && self.users@[i]@.username == name
    }

    /// The account stored under a username, if any.
    pub closed spec fn spec_get(self, name: Seq<char>) -> Option<AccountView> {
        if self.contains_name(name) {
            Some(
                self.users@[choose|i: int|
                    0 <= i < self.users@.len() && self.users@[i]@.username == name]@,
            )
        } else {
            None
        }
    }

    /// All stored accounts, in storage order.
    pub closed spec fn accounts(self) -> Seq<AccountView> {
        self.users@.map(|i: int, a: UserAccount| a@)
    }

    /// A stored account is found under exactly its own username.
    proof fn lemma_unique_index(self, i: int)
        requires
            self.wf(),
            0 <= i < self.users@.len(),
        ensures
            self.spec_get(self.users@[i]@.username) == Some(self.users@[i]@),
    {
        let name = self.users@[i]@.username;
        assert(0 <= i < self.users@.len() && self.users@[i]@.username == name);
        assert(self.contains_name(name));
        let k = choose|k: int| 0 <= k < self.users@.len() && self.users@[k]@.username == name;
        if k < i {
            assert(self.users@[k]@.username != self.users@[i]@.username);
        } else if i < k {
            assert(self.users@[i]@.username != self.users@[k]@.username);
        }
    }

    /// An account looked up under a name carries that name.
    pub proof fn lemma_get_names(self, name: Seq<char>)
        requires
            self.spec_get(name) is Some,
        ensures
            self.spec_get(name)->0.username == name,
    {
    }

    /// In a well-formed store, every account carries a 32-byte salt.
    pub proof fn lemma_get_salt_len(self, name: Seq<char>)
        requires
            self.wf(),
            self.spec_get(name) is Some,
        ensures
            self.spec_get(name)->0.salt.len() == 32,
    {
    }

    /// The empty store.
    pub fn new() -> (r: Self)
        ensures
            r.wf(),
            forall|n: Seq<char>| r.spec_get(n) is None,
            r.accounts().len() == 0,
    {
        Database { users: Vec::new() }
    }

    /// Looks an account up by username.
    pub fn get(&self, username: &str) -> (r: Option<UserAccount>)
        requires
            self.wf(),
        ensures
            match r {
                Some(a) => self.spec_get(username@) == Some(a@),
                None => self.spec_get(username@) is None,
            },
    {
        let ghost name = username@;
        let n = self.users.len();
        let mut i: usize = 0;
        while i < n
            invariant
                0 <= i <= n,
                n == self.users@.len(),
                self.wf(),
                forall|j: int| 0 <= j < i ==> self.users@[j]@.username != name,
                name == username@,
            decreases n - i,
        {
            if str_eq(self.users[i].username().as_str(), username) {
                proof {
                    Self::lemma_unique_index(*self, i as int);
                }
                return Some(self.users[i].clone());
            }
            i = i + 1;
        }
        proof {
            assert(!self.contains_name(name));
        }
        None
    }

    /// Upserts an account under its username: a stored account with the
    /// same username is replaced, any other account is untouched.
    pub fn insert(&mut self, user: UserAccount)
        requires
            old(self).wf(),
            user@.salt.len() == 32,
        ensures
            final(self).wf(),
            final(self).spec_get(user@.username) == Some(user@),
            forall|n: Seq<char>|
                n != user@.username ==> final(self).spec_get(n) == old(self).spec_get(n),
            old(self).contains_name(user@.username) ==> final(self).accounts().len() == old(
                self,
            ).accounts().len(),
            !old(self).contains_name(user@.username) ==> final(self).accounts().len() == old(
                self,
            ).accounts().len() + 1,
    {
        let ghost name = user@.username;
        let n = self.users.len();
        let mut i: usize = 0;
        while i < n
            invariant
                0 <= i <= n,
                n == self.users@.len(),
                *self == *old(self),
                self.wf(),
                forall|j: int| 0 <= j < i ==> self.users@[j]@.username != name,
                name == user@.username,
                user@.salt.len() == 32,
            decreases n - i,
        {
            if str_eq(self.users[i].username().as_str(), user.username().as_str()) {
                self.users.set(i, user);
                proof {
                    let s0 = old(self).users@;
                    let s1 = self.users@;
                    assert forall|k: int, l: int|
                        0 <= k < l < s1.len() implies s1[k]@.username != s1[l]@.username by {
                        assert(s1[k]@.username == s0[k]@.username);
                        assert(s1[l]@.username == s0[l]@.username);
                        assert(s0[k]@.username != s0[l]@.username);
                    }
                    assert forall|k: int| 0 <= k < s1.len() implies (#[trigger] s1[k])@.salt.len()
                        == 32 by {
                        assert(s1 == s0.update(i as int, user));
                        if k != i as int {
                            assert(s1[k] == s0[k]);
                            assert(s0[k]@.salt.len() == 32);
                        } else {
                            assert(s1[k] == user);
                        }
                    }
                    Self::lemma_unique_index(*self, i as int);
                    assert(old(self).contains_name(name));
                    assert forall|m: Seq<char>| m != name implies self.spec_get(m) == old(
                        self,
                    ).spec_get(m) by {
                        if old(self).contains_name(m) {
                            let k = choose|k: int|
                                0 <= k < s0.len() && s0[k]@.username == m;
                            assert(s1[k] == s0[k]);
                            Self::lemma_unique_index(*old(self), k);
                            Self::lemma_unique_index(*self, k);
                        } else {
                            if self.contains_name(m) {
                                let k = choose|k: int|
                                    0 <= k < s1.len() && s1[k]@.username == m;
                                assert(s0[k]@.username == m);
                                assert(old(self).contains_name(m));
                            }
                        }
                    }
                }
                return;
            }
            i = i + 1;
        }
        self.users.push(user);
        proof {
            let s0 = old(self).users@;
            let s1 = self.users@;
            assert forall|k: int, l: int|
                0 <= k < l < s1.len() implies s1[k]@.username != s1[l]@.username by {
                if l < s0.len() {
                    assert(s0[k]@.username != s0[l]@.username);
                } else {
                    assert(s1[l] == user);
                    assert(s1[k] == s0[k]);
                    assert(s0[k]@.username != name);
                }
            }
            assert forall|k: int| 0 <= k < s1.len() implies (#[trigger] s1[k])@.salt.len()
                == 32 by {
                if k < s0.len() {
                    assert(s0[k]@.salt.len() == 32);
                } else {
                    assert(s1[k] == user);
                }
            }
            Self::lemma_unique_index(*self, n as int);
            assert(!old(self).contains_name(name));
            assert forall|m: Seq<char>| m != name implies self.spec_get(m) == old(self).spec_get(
                m,
            ) by {
                if old(self).contains_name(m) {
                    let k = choose|k: int| 0 <= k < s0.len() && s0[k]@.username == m;
                    assert(s1[k] == s0[k]);
                    Self::lemma_unique_index(*old(self), k);
                    Self::lemma_unique_index(*self, k);
                } else {
                    if self.contains_name(m) {
                        let k = choose|k: int| 0 <= k < s1.len() && s1[k]@.username == m;
                        assert(k < s0.len());
                        assert(s0[k]@.username == m);
                        assert(old(self).contains_name(m));
                    }
                }
            }
        }
    }

    /// All accounts, cloned out of the store in storage order.
    pub fn values(&self) -> (r: Vec<UserAccount>)
        ensures
            r@.len() == self.accounts().len(),
            forall|i: int| 0 <= i < r@.len() ==> r@[i]@ == self.accounts()[i],
    {
        let mut out: Vec<UserAccount> = Vec::new();
        let n = self.users.len();
        let mut i: usize = 0;
        while i < n
            invariant
                0 <= i <= n,
                n == self.users@.len(),
                out@.len() == i,
                forall|j: int| 0 <= j < i ==> out@[j]@ == self.users@[j]@,
            decreases n - i,
        {
            out.push(self.users[i].clone());
            i = i + 1;
        }
        out
    }
}

impl Default for Database {
    /// A store seeded with the two built-in accounts, each salted
    /// freshly and holding the digest of the default password.
    fn default() -> (r: Database)
        ensures
            r.wf(),
            r.spec_get("default_user"@) is Some,
            ({
                let a = r.spec_get("default_user"@)->0;
                &&& a.username == "default_user"@
                &&& a.phone == "0784539872"@
                &&& a.role == UserRole::StandardUser
                &&& a.salt.len() == 32
                &&& a.hash == hash_of("default_pass"@, a.salt)
            }),
            r.spec_get("default_hr"@) is Some,
            ({
                let a = r.spec_get("default_hr"@)->0;
                &&& a.username == "default_hr"@
                &&& a.phone == "0793175289"@
                &&& a.role == UserRole::HR
                &&& a.salt.len() == 32
                &&& a.hash == hash_of("default_pass"@, a.salt)
            }),
            forall|n: Seq<char>|
                n != "default_user"@ && n != "default_hr"@ ==> r.spec_get(n) is None,
    {
        proof {
            reveal_strlit("default_user");
            reveal_strlit("default_hr");
            reveal_strlit("default_pass");
        }
        let mut db = Database::new();
        let password = "default_pass";
        let salt_1 = generate_salt();
        let hash_1 = generate_hash(password, &salt_1);
        let u1 = UserAccount::new(
            "default_user".to_owned(),
            hash_1,
            salt_1,
            "0784539872".to_owned(),
            UserRole::StandardUser,
        );
        let ghost gu1 = u1@;
        db.insert(u1);
        proof {
            assert("default_user"@.len() == 12);
            assert("default_hr"@.len() == 10);
            assert("default_user"@ != "default_hr"@);
            assert(db.spec_get("default_user"@) == Some(gu1));
        }
        let salt_2 = generate_salt();
        let hash_2 = generate_hash(password, &salt_2);
        let u2 = UserAccount::new(
            "default_hr".to_owned(),
            hash_2,
            salt_2,
            "0793175289".to_owned(),
            UserRole::HR,
        );
        db.insert(u2);
        db
    }
}

} // verus!
