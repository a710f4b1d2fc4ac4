use vstd::prelude::*;
use crate::action::{Action, ConnectedUser};
use crate::database::Database;
use crate::error::ServerError;
use crate::user::UserRole;

verus! {

/// The authorization-time identity label of a session.
#[derive(Clone, Copy, Debug, PartialEq, Eq, Structural)]
pub enum Subject {
    Anonymous,
    Standard,
    Hr,
}

/// The subject label under which a role acts.
pub open spec fn subject_of_role(role: UserRole) -> Subject {
    match role {
        UserRole::StandardUser => Subject::Standard,
        UserRole::HR => Subject::Hr,
    }
}

/// The subject of a session: anonymous without an identity, otherwise
/// the role label of the backing account; nothing, when an authenticated
/// identity has no backing account.
pub open spec fn spec_subject(id: Option<Seq<char>>, db: Database) -> Option<Subject> {
    match id {
        None => Some(Subject::Anonymous),
        Some(name) => match db.spec_get(name) {
            Some(a) => Some(subject_of_role(a.role)),
            None => None,
        },
    }
}

/// One allow-list entry: a subject and an action it may perform.
#[derive(Clone, Copy, Debug, PartialEq, Eq, Structural)]
pub struct PolicyRule {
    pub subject: Subject,
    pub object: Action,
}

/// One denial record: who was refused which action.
#[derive(Clone, Copy, Debug, PartialEq, Eq, Structural)]
pub struct AuditEntry {
    pub subject: Subject,
    pub object: Action,
}

/// Does an allow-list hold this subject/object pair?
pub open spec fn rules_allow(rules: Seq<PolicyRule>, subject: Subject, object: Action) -> bool {
    exists|i: int| 0 <= i < rules.len() && rules[i] == (PolicyRule { subject, object })
}

/// The policy evaluator: a purely additive allow-list, evaluated with
/// default deny, together with the audit trail of every denial.
pub struct AccessControl {
    rules: Vec<PolicyRule>,
    audit: Vec<AuditEntry>,
}

impl AccessControl {
    /// The allow-list the evaluator was built over.
    pub closed spec fn spec_rules(self) -> Seq<PolicyRule> {
        self.rules@
    }

    /// The denial records, oldest first.
    pub closed spec fn spec_audit(self) -> Seq<AuditEntry> {
        self.audit@
    }

    /// Is this subject/object pair on the allow-list?
    pub open spec fn allows(self, subject: Subject, object: Action) -> bool {
        rules_allow(self.spec_rules(), subject, object)
    }

    /// An evaluator over the given allow-list, with an empty audit trail.
    pub fn new(rules: Vec<PolicyRule>) -> (r: Self)
        ensures
            r.spec_rules() == rules@,
            r.spec_audit() == Seq::<AuditEntry>::empty(),
    {
        AccessControl { rules, audit: Vec::new() }
    }

    /// The denial records, oldest first.
    pub fn audit(&self) -> (r: &Vec<AuditEntry>)
        ensures
            r@ == self.spec_audit(),
    {
        &self.audit
    }

    /// Decides whether the subject may perform the action.  A denial —
    /// and only a denial — appends one audit record naming the subject
    /// and the attempted action.
    pub fn authorize(&mut self, subject: Subject, object: Action) -> (r: bool)
        ensures
            r == old(self).allows(subject, object),
            final(self).spec_rules() == old(self).spec_rules(),
            r ==> final(self).spec_audit() == old(self).spec_audit(),
            !r ==> final(self).spec_audit() == old(self).spec_audit().push(
                (AuditEntry { subject, object }),
            ),
    {
        let n = self.rules.len();
        let mut i: usize = 0;
        while i < n
            invariant
                0 <= i <= n,
                n == self.rules@.len(),
                *self == *old(self),
                forall|j: int|
                    0 <= j < i ==> self.rules@[j] != (PolicyRule { subject, object }),
            decreases n - i,
        {
            let rule = self.rules[i];
            if rule.subject == subject && rule.object == object {
                proof {
                    assert(self.rules@[i as int] == (PolicyRule { subject, object }));
                }
                return true;
            }
            i = i + 1;
        }
        proof {
            assert(!old(self).allows(subject, object));
        }
        self.audit.push(AuditEntry { subject, object });
        false
    }
}

/// What the reference allow-list grants: anonymous sessions may log in
/// and exit; standard users may also change their own phone and log
/// out; HR may do everything.
pub open spec fn default_allows(subject: Subject, object: Action) -> bool {
    match subject {
        Subject::Anonymous => object == Action::Login || object == Action::Exit,
        Subject::Standard => object == Action::ChangeOwnPhone || object == Action::Login
            || object == Action::Logout || object == Action::Exit,
        Subject::Hr => true,
    }
}

/// The reference allow-list, as an evaluator with an empty audit trail.
pub fn default_policy() -> (r: AccessControl)
    ensures
        r.spec_audit() == Seq::<AuditEntry>::empty(),
        forall|s: Subject, o: Action|
            #[trigger] rules_allow(r.spec_rules(), s, o) == default_allows(s, o),
{
    let mut rules: Vec<PolicyRule> = Vec::new();
    rules.push(PolicyRule { subject: Subject::Anonymous, object: Action::Login });
    rules.push(PolicyRule { subject: Subject::Anonymous, object: Action::Exit });
    rules.push(PolicyRule { subject: Subject::Standard, object: Action::ChangeOwnPhone });
    rules.push(PolicyRule { subject: Subject::Standard, object: Action::Login });
    rules.push(PolicyRule { subject: Subject::Standard, object: Action::Logout });
    rules.push(PolicyRule { subject: Subject::Standard, object: Action::Exit });
    rules.push(PolicyRule { subject: Subject::Hr, object: Action::ShowUsers });
    rules.push(PolicyRule { subject: Subject::Hr, object: Action::ChangeOwnPhone });
    rules.push(PolicyRule { subject: Subject::Hr, object: Action::ChangePhone });
    rules.push(PolicyRule { subject: Subject::Hr, object: Action::AddUser });
    rules.push(PolicyRule { subject: Subject::Hr, object: Action::Login });
    rules.push(PolicyRule { subject: Subject::Hr, object: Action::Logout });
    rules.push(PolicyRule { subject: Subject::Hr, object: Action::Exit });
    let r = AccessControl::new(rules);
    proof {
        assert(r.spec_rules().len() == 13);
        assert(r.spec_rules()[0] == (PolicyRule {
            subject: Subject::Anonymous,
            object: Action::Login,
        }));
        assert(r.spec_rules()[1] == (PolicyRule {
            subject: Subject::Anonymous,
            object: Action::Exit,
        }));
        assert(r.spec_rules()[2] == (PolicyRule {
            subject: Subject::Standard,
            object: Action::ChangeOwnPhone,
        }));
        assert(r.spec_rules()[3] == (PolicyRule {
            subject: Subject::Standard,
            object: Action::Login,
        }));
        assert(r.spec_rules()[4] == (PolicyRule {
            subject: Subject::Standard,
            object: Action::Logout,
        }));
        assert(r.spec_rules()[5] == (PolicyRule {
            subject: Subject::Standard,
            object: Action::Exit,
        }));
        assert(r.spec_rules()[6] == (PolicyRule {
            subject: Subject::Hr,
            object: Action::ShowUsers,
        }));
        assert(r.spec_rules()[7] == (PolicyRule {
            subject: Subject::Hr,
            object: Action::ChangeOwnPhone,
        }));
        assert(r.spec_rules()[8] == (PolicyRule {
            subject: Subject::Hr,
            object: Action::ChangePhone,
        }));
        assert(r.spec_rules()[9] == (PolicyRule {
            subject: Subject::Hr,
            object: Action::AddUser,
        }));
        assert(r.spec_rules()[10] == (PolicyRule {
            subject: Subject::Hr,
            object: Action::Login,
        }));
        assert(r.spec_rules()[11] == (PolicyRule {
            subject: Subject::Hr,
            object: Action::Logout,
        }));
        assert(r.spec_rules()[12] == (PolicyRule {
            subject: Subject::Hr,
            object: Action::Exit,
        }));
        assert forall|s: Subject, o: Action|
            #[trigger] rules_allow(r.spec_rules(), s, o) == default_allows(s, o) by {
            if !default_allows(s, o) {
                assert(forall|i: int|
                    0 <= i < r.spec_rules().len() ==> r.spec_rules()[i] != (PolicyRule {
                        subject: s,
                        object: o,
                    }));
            }
        }
    }
    r
}

/// Evaluates whether the session may perform the action, through the
/// single enforcement point: the subject is derived from the session
/// and the store, and the allow-list is consulted with default deny.
/// The only failure is the fatal one, an authenticated identity with no
/// backing account.
pub fn verify_action(u: &ConnectedUser, db: &Database, ac: &mut AccessControl, action: &Action) -> (r:
    Result<bool, ServerError>)
    requires
        db.wf(),
    ensures
        final(ac).spec_rules() == old(ac).spec_rules(),
        match spec_subject(u@, *db) {
            None => {
                &&& r == Err::<bool, ServerError>(ServerError::InternalInconsistency)
                &&& final(ac).spec_audit() == old(ac).spec_audit()
            },
            Some(s) => {
                &&& r == Ok::<bool, ServerError>(old(ac).allows(s, *action))
                &&& (old(ac).allows(s, *action) ==> final(ac).spec_audit() == old(ac).spec_audit())
                &&& (!old(ac).allows(s, *action) ==> final(ac).spec_audit()
                    == old(ac).spec_audit().push((AuditEntry { subject: s, object: *action })))
            },
        },
{
    let subject: Subject;
    if u.is_anonymous() {
        subject = Subject::Anonymous;
    } else {
        let uname = u.username();
        match db.get(uname.as_str()) {
            Some(account) => {
                subject = match account.role() {
                    UserRole::StandardUser => Subject::Standard,
                    UserRole::HR => Subject::Hr,
                };
            },
            None => {
                return Err(ServerError::InternalInconsistency);
            },
        }
    }
    Ok(ac.authorize(subject, *action))
}

} // verus!
